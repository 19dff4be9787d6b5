//! Wireless provisioning for hosts configured through netplan: the
//! configuration model, the merge of a wireless network into it, and the
//! decisions of the command-line tool around them.

pub mod cli;
pub mod merge;
pub mod netplan;
pub mod run;
pub mod scan;
pub mod secret;
pub mod table;
pub mod text;

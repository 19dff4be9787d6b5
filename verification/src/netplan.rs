//! The netplan configuration document and its mathematical model.
//!
//! Each type of the document has a model of plain values as its view: tables
//! become maps from names, strings become sequences of characters. A field
//! that the document leaves out is `None` in both, which keeps "absent"
//! apart from "empty" and from `false`.

use crate::secret::valid_secret;
use crate::table::Table;
use vstd::prelude::*;

verus! {

/// One wireless network that an interface may join.
#[derive(Debug, PartialEq, Eq)]
pub struct AccessPoint {
    pub password: String,
}

/// The settings of one interface, wired or wireless.
#[derive(Debug, PartialEq, Eq)]
pub struct Ethernet {
    pub dhcp4: Option<bool>,
    pub optional: Option<bool>,
    pub access_points: Option<Table<AccessPoint>>,
}

/// The interfaces of a host.
#[derive(Debug, PartialEq, Eq)]
pub struct Network {
    pub ethernets: Table<Ethernet>,
    pub wifis: Option<Table<Ethernet>>,
    pub version: u16,
}

/// A whole configuration document.
#[derive(Debug, PartialEq, Eq)]
pub struct NetplanFile {
    pub network: Network,
}

/// Model of an [`AccessPoint`].
pub struct AccessPointModel {
    pub password: Seq<char>,
}

/// Model of an [`Ethernet`].
pub struct EthernetModel {
    pub dhcp4: Option<bool>,
    pub optional: Option<bool>,
    pub access_points: Option<Map<Seq<char>, AccessPointModel>>,
}

/// Model of a [`Network`].
pub struct NetworkModel {
    pub ethernets: Map<Seq<char>, EthernetModel>,
    pub wifis: Option<Map<Seq<char>, EthernetModel>>,
    pub version: u16,
}

/// Model of a [`NetplanFile`].
pub struct NetplanModel {
    pub network: NetworkModel,
}

impl View for AccessPoint {
    type V = AccessPointModel;

    open spec fn view(&self) -> AccessPointModel {
        AccessPointModel { password: self.password@ }
    }
}

impl View for Ethernet {
    type V = EthernetModel;

    open spec fn view(&self) -> EthernetModel {
        EthernetModel {
            dhcp4: self.dhcp4,
            optional: self.optional,
            access_points: match self.access_points {
                Some(points) => Some(points.model()),
                None => None,
            },
        }
    }
}

impl View for Network {
    type V = NetworkModel;

    open spec fn view(&self) -> NetworkModel {
        NetworkModel {
            ethernets: self.ethernets.model(),
            wifis: match self.wifis {
                Some(wifis) => Some(wifis.model()),
                None => None,
            },
            version: self.version,
        }
    }
}

impl View for NetplanFile {
    type V = NetplanModel;

    open spec fn view(&self) -> NetplanModel {
        NetplanModel { network: self.network@ }
    }
}

impl AccessPointModel {
    /// The shared secret has an acceptable length.
    pub open spec fn well_formed(self) -> bool {
        valid_secret(self.password)
    }
}

impl EthernetModel {
    /// Where access points are present there is at least one, and each of
    /// them is well formed.
    pub open spec fn well_formed(self) -> bool {
        match self.access_points {
            Some(points) => {
                &&& exists|name: Seq<char>| points.contains_key(name)
                &&& forall|name: Seq<char>| #[trigger]
                    points.contains_key(name) ==> points[name].well_formed()
            },
            None => true,
        }
    }
}

/// Every interface of `interfaces` is well formed.
pub open spec fn all_well_formed(interfaces: Map<Seq<char>, EthernetModel>) -> bool {
    forall|name: Seq<char>| #[trigger]
        interfaces.contains_key(name) ==> interfaces[name].well_formed()
}

impl NetworkModel {
    /// Every interface, wired or wireless, is well formed.
    pub open spec fn well_formed(self) -> bool {
        &&& all_well_formed(self.ethernets)
        &&& match self.wifis {
            Some(wifis) => all_well_formed(wifis),
            None => true,
        }
    }
}

impl NetplanModel {
    /// The document keeps the invariants of the configuration model.
    pub open spec fn well_formed(self) -> bool {
        self.network.well_formed()
    }
}

} // verus!

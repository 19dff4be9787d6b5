//! Merging one wireless network into a configuration document.
//!
//! The merge touches one access point of one wireless interface. Everything
//! else in the document stays as it was: the wired interfaces, the other
//! wireless interfaces, the other access points of the interface, and the
//! settings of an interface that was already there.

use crate::netplan::{
    all_well_formed, AccessPoint, AccessPointModel, Ethernet, EthernetModel, NetplanFile,
    NetplanModel, Network, NetworkModel,
};
use crate::secret::valid_secret;
use crate::table::{held, lemma_names_after_is_idempotent, names_after, Table};
use vstd::prelude::*;

verus! {

/// The settings that a wireless interface starts with when the document did
/// not know it: addresses come over DHCP, and booting waits for the link.
pub open spec fn new_wireless_model() -> EthernetModel {
    EthernetModel { dhcp4: Some(true), optional: Some(false), access_points: None }
}

/// `interface` with the access point `network` set to `secret`. The access
/// points become present if they were absent; the other settings stay.
pub open spec fn with_access_point_model(
    interface: EthernetModel,
    network: Seq<char>,
    secret: Seq<char>,
) -> EthernetModel {
    let points = match interface.access_points {
        Some(points) => points,
        None => Map::empty(),
    };
    EthernetModel {
        access_points: Some(points.insert(network, AccessPointModel { password: secret })),
        ..interface
    }
}

/// The wireless interfaces of a document, none where the field is absent.
pub open spec fn wireless_of(doc: NetplanModel) -> Map<Seq<char>, EthernetModel> {
    match doc.network.wifis {
        Some(wifis) => wifis,
        None => Map::empty(),
    }
}

/// The document that results from merging the access point `network` with
/// `secret` into the wireless interface `interface` of `doc`.
pub open spec fn merged_model(
    doc: NetplanModel,
    interface: Seq<char>,
    network: Seq<char>,
    secret: Seq<char>,
) -> NetplanModel {
    let wifis = wireless_of(doc);
    let before = if wifis.contains_key(interface) {
        wifis[interface]
    } else {
        new_wireless_model()
    };
    NetplanModel {
        network: NetworkModel {
            wifis: Some(wifis.insert(interface, with_access_point_model(before, network, secret))),
            ..doc.network
        },
    }
}

/// The secret that `doc` holds for the access point `network` of the
/// wireless interface `interface`, if it holds that access point.
pub open spec fn secret_of(doc: NetplanModel, interface: Seq<char>, network: Seq<char>) -> Option<
    Seq<char>,
> {
    let wifis = wireless_of(doc);
    if wifis.contains_key(interface) {
        match wifis[interface].access_points {
            Some(points) => if points.contains_key(network) {
                Some(points[network].password)
            } else {
                None
            },
            None => None,
        }
    } else {
        None
    }
}

/// A document with `interface` as its one wireless interface, fresh, and
/// `network` with `secret` as the one access point of it.
pub open spec fn sole_wireless_model(
    interface: Seq<char>,
    network: Seq<char>,
    secret: Seq<char>,
) -> Map<Seq<char>, EthernetModel> {
    Map::empty().insert(
        interface,
        EthernetModel {
            dhcp4: Some(true),
            optional: Some(false),
            access_points: Some(
                Map::empty().insert(network, AccessPointModel { password: secret }),
            ),
        },
    )
}

impl Ethernet {
    /// The names of the access points, in the order in which they are held.
    pub open spec fn network_names(&self) -> Seq<Seq<char>> {
        match self.access_points {
            Some(points) => points.names(),
            None => Seq::empty(),
        }
    }

    /// A wireless interface that the document did not know yet.
    pub fn new_wireless() -> (interface: Ethernet)
        ensures
            interface@ == new_wireless_model(),
            interface.network_names() == Seq::<Seq<char>>::empty(),
    {
        Ethernet { dhcp4: Some(true), optional: Some(false), access_points: None }
    }

    /// Sets the access point `network` to `secret`, keeping the other
    /// settings and the other access points, and the order of those.
    pub fn with_access_point(self, network: &str, secret: &str) -> (updated: Ethernet)
        ensures
            updated@ == with_access_point_model(self@, network@, secret@),
            updated.network_names() == names_after(self.network_names(), network@),
            updated.network_names().no_duplicates(),
    {
        let Ethernet { dhcp4, optional, access_points } = self;
        let mut points = match access_points {
            Some(points) => points,
            None => Table::new(),
        };
        let ghost before = points;
        points.insert(network.to_owned(), AccessPoint { password: secret.to_owned() });
        assert(points.model() =~= before.model().insert(
            network@,
            AccessPointModel { password: secret@ },
        ));
        assert(self.access_points is None ==> before.model() =~= Map::empty());
        Ethernet { dhcp4, optional, access_points: Some(points) }
    }
}

impl NetplanFile {
    /// The names of the wireless interfaces, in the order in which they are held.
    pub open spec fn wireless_names(&self) -> Seq<Seq<char>> {
        match self.network.wifis {
            Some(wifis) => wifis.names(),
            None => Seq::empty(),
        }
    }

    /// The wireless interface held under `name`, if there is one.
    pub open spec fn wireless(&self, name: Seq<char>) -> Option<Ethernet> {
        match self.network.wifis {
            Some(wifis) => held(wifis@, name),
            None => None,
        }
    }
}

/// Merges the access point `network` with `secret` into the wireless
/// interface `interface` of `doc`.
///
/// The wireless interfaces become present if they were absent. An interface
/// that the document did not know starts from the settings of
/// [`Ethernet::new_wireless`]; one that it knew keeps its settings. The
/// wired interfaces and the other wireless interfaces are the values they
/// were, and names keep their order, a new one going last.
pub fn merge_wireless_network(
    doc: NetplanFile,
    interface: &str,
    network: &str,
    secret: &str,
) -> (merged: NetplanFile)
    ensures
        merged@ == merged_model(doc@, interface@, network@, secret@),
        secret_of(merged@, interface@, network@) == Some(secret@),
        doc@.network.wifis is None ==> merged@.network.wifis == Some(
            sole_wireless_model(interface@, network@, secret@),
        ),
        doc@.well_formed() && valid_secret(secret@) ==> merged@.well_formed(),
        merged.network.ethernets == doc.network.ethernets,
        merged.network.version == doc.network.version,
        merged.wireless_names() == names_after(doc.wireless_names(), interface@),
        merged.wireless_names().no_duplicates(),
        forall|other: Seq<char>|
            other != interface@ ==> merged.wireless(other) == doc.wireless(other),
        merged.wireless(interface@) is Some,
        merged.wireless(interface@).unwrap().network_names() == names_after(
            match doc.wireless(interface@) {
                Some(before) => before.network_names(),
                None => Seq::empty(),
            },
            network@,
        ),
        merged.wireless(interface@).unwrap().network_names().no_duplicates(),
{
    let NetplanFile { network: Network { ethernets, wifis, version } } = doc;
    let mut wifis = match wifis {
        Some(wifis) => wifis,
        None => Table::new(),
    };
    let ghost before = wifis;
    assert(doc.network.wifis is None ==> before.model() =~= Map::empty());
    let known = wifis.insert(interface.to_owned(), Ethernet::new_wireless());
    let current = match known {
        Some(current) => current,
        None => Ethernet::new_wireless(),
    };
    let updated = current.with_access_point(network, secret);
    wifis.insert(interface.to_owned(), updated);
    proof {
        lemma_names_after_is_idempotent(before.names(), interface@);
        assert(wifis.model() =~= before.model().insert(interface@, updated@));
        if doc@.network.wifis is None {
            lemma_fresh_document_gets_sole_interface(doc@, interface@, network@, secret@);
        }
        if doc@.well_formed() && valid_secret(secret@) {
            lemma_merge_keeps_well_formed(doc@, interface@, network@, secret@);
        }
    }
    NetplanFile { network: Network { ethernets, wifis: Some(wifis), version } }
}

/// Merging into a document without wireless interfaces gives exactly one
/// wireless interface, with exactly one access point.
pub proof fn lemma_fresh_document_gets_sole_interface(
    doc: NetplanModel,
    interface: Seq<char>,
    network: Seq<char>,
    secret: Seq<char>,
)
    requires
        doc.network.wifis is None,
    ensures
        merged_model(doc, interface, network, secret).network.wifis == Some(
            sole_wireless_model(interface, network, secret),
        ),
{
    assert(with_access_point_model(new_wireless_model(), network, secret).access_points
        == Some(Map::empty().insert(network, AccessPointModel { password: secret })));
}

/// A merge of an acceptable secret keeps a well-formed document well formed.
pub proof fn lemma_merge_keeps_well_formed(
    doc: NetplanModel,
    interface: Seq<char>,
    network: Seq<char>,
    secret: Seq<char>,
)
    requires
        doc.well_formed(),
        valid_secret(secret),
    ensures
        merged_model(doc, interface, network, secret).well_formed(),
{
    let wifis = wireless_of(doc);
    let before = if wifis.contains_key(interface) {
        wifis[interface]
    } else {
        new_wireless_model()
    };
    let points = with_access_point_model(before, network, secret).access_points.unwrap();
    assert(points.contains_key(network));
}

/// A merge removes no access point: each one that the document held is held
/// after the merge, and each but the merged one with the secret it had.
pub proof fn lemma_merge_removes_nothing(
    doc: NetplanModel,
    interface: Seq<char>,
    network: Seq<char>,
    secret: Seq<char>,
    held_interface: Seq<char>,
    held_network: Seq<char>,
)
    requires
        secret_of(doc, held_interface, held_network) is Some,
    ensures
        secret_of(merged_model(doc, interface, network, secret), held_interface, held_network)
            == if held_interface == interface && held_network == network {
            Some(secret)
        } else {
            secret_of(doc, held_interface, held_network)
        },
{
}

/// Merging a second, different network under the same interface leaves the
/// first network as the first merge stored it.
pub proof fn lemma_second_network_keeps_first(
    doc: NetplanModel,
    interface: Seq<char>,
    first: Seq<char>,
    first_secret: Seq<char>,
    second: Seq<char>,
    second_secret: Seq<char>,
)
    requires
        first != second,
    ensures
        secret_of(
            merged_model(
                merged_model(doc, interface, first, first_secret),
                interface,
                second,
                second_secret,
            ),
            interface,
            first,
        ) == Some(first_secret),
        secret_of(
            merged_model(
                merged_model(doc, interface, first, first_secret),
                interface,
                second,
                second_secret,
            ),
            interface,
            second,
        ) == Some(second_secret),
{
}

/// Merging the same network of the same interface twice gives the document
/// that the second merge alone would give: the later secret stands, and the
/// network is held once.
pub proof fn lemma_later_secret_wins(
    doc: NetplanModel,
    interface: Seq<char>,
    network: Seq<char>,
    earlier: Seq<char>,
    later: Seq<char>,
)
    ensures
        merged_model(merged_model(doc, interface, network, earlier), interface, network, later)
            == merged_model(doc, interface, network, later),
{
    let twice = merged_model(
        merged_model(doc, interface, network, earlier),
        interface,
        network,
        later,
    );
    let direct = merged_model(doc, interface, network, later);
    let wifis = wireless_of(doc);
    let before = if wifis.contains_key(interface) {
        wifis[interface]
    } else {
        new_wireless_model()
    };
    let first = with_access_point_model(before, network, earlier);
    assert(with_access_point_model(first, network, later).access_points.unwrap()
        =~= with_access_point_model(before, network, later).access_points.unwrap());
    assert(twice.network.wifis.unwrap() =~= direct.network.wifis.unwrap());
}

} // verus!

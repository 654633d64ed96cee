//! The DDS-receive (`ddsrecvconf`) and DRGS-receive (`drgsconf`)
//! configuration documents of an LRGS.

use vstd::prelude::*;
use vstd::string::*;
use crate::api::{DdsConnection, DrgsConnection};
use crate::text::{decimal_text, int_digits, int_text, nat_digits};
use crate::xml::{
    config_document, distinct_attribute_names, entries_view, render_config, XmlEntry, XmlEntryView,
    XmlLeaf,
};

verus! {

/// Port on which LRGS peers serve DDS to each other.
pub const PEER_DDS_PORT: i32 = 16003;

pub open spec fn bool_chars(b: bool) -> Seq<char> {
    if b {
        "true"@
    } else {
        "false"@
    }
}

/// The entry numbered `i` of a DDS-receive document.
pub open spec fn dds_entry(
    i: nat,
    name: Seq<char>,
    host: Seq<char>,
    port: int,
    username: Seq<char>,
    enabled: bool,
) -> XmlEntryView {
    XmlEntryView {
        tag: "connection"@,
        attributes: seq![("number"@, nat_digits(i)), ("host"@, host)],
        children: seq![
            ("enabled"@, bool_chars(enabled)),
            ("port"@, int_digits(port)),
            ("name"@, name),
            ("username"@, username),
            ("authenticate"@, "true"@),
        ],
    }
}

/// Peers come first, numbered from 0, each as user `replication` on the
/// peer port, enabled, named `replication-<i>`.
pub open spec fn peer_entries(peers: Seq<Seq<char>>) -> Seq<XmlEntryView> {
    Seq::new(
        peers.len(),
        |i: int|
            dds_entry(
                i as nat,
                "replication-"@ + nat_digits(i as nat),
                peers[i],
                PEER_DDS_PORT as int,
                "replication"@,
                true,
            ),
    )
}

/// Declared connections follow the peers, numbered on from `first`; a
/// connection without `enabled` is disabled.
pub open spec fn declared_dds_entries(first: nat, conns: Seq<DdsConnection>) -> Seq<
    XmlEntryView,
> {
    Seq::new(
        conns.len(),
        |j: int|
            dds_entry(
                (first + j) as nat,
                conns[j].name@,
                conns[j].spec.hostname@,
                conns[j].spec.port as int,
                conns[j].spec.username@,
                match conns[j].spec.enabled {
                    Some(e) => e,
                    None => false,
                },
            ),
    )
}

pub open spec fn dds_recv_entries(peers: Seq<Seq<char>>, conns: Seq<DdsConnection>) -> Seq<
    XmlEntryView,
> {
    peer_entries(peers) + declared_dds_entries(peers.len(), conns)
}

/// The DDS-receive document for `peers` and the declared `conns`.
pub open spec fn dds_recv_text(peers: Seq<Seq<char>>, conns: Seq<DdsConnection>) -> Seq<char> {
    config_document("ddsrecvconf"@, dds_recv_entries(peers, conns))
}

/// The entry numbered `i` of a DRGS-receive document; `enabled` defaults to
/// true and `evtenabled` to false.
pub open spec fn drgs_entry(i: nat, c: DrgsConnection) -> XmlEntryView {
    XmlEntryView {
        tag: "connection"@,
        attributes: seq![("number"@, nat_digits(i)), ("host"@, c.spec.hostname@)],
        children: seq![
            ("name"@, c.name@),
            ("enabled"@, bool_chars(match c.spec.enabled { Some(e) => e, None => true })),
            ("msgport"@, nat_digits(c.spec.message_port as nat)),
            ("evtport"@, nat_digits(c.spec.event_port as nat)),
            ("evtenabled"@, bool_chars(match c.spec.event_enabled { Some(e) => e, None => false })),
            ("startpattern"@, c.spec.start_pattern@),
        ],
    }
}

pub open spec fn drgs_recv_entries(conns: Seq<DrgsConnection>) -> Seq<XmlEntryView> {
    Seq::new(conns.len(), |i: int| drgs_entry(i as nat, conns[i]))
}

/// The DRGS-receive document for `conns`.
pub open spec fn drgs_recv_text(conns: Seq<DrgsConnection>) -> Seq<char> {
    config_document("drgsconf"@, drgs_recv_entries(conns))
}

fn bool_string(b: bool) -> (r: String)
    ensures
        r@ == bool_chars(b),
{
    if b {
        String::from_str("true")
    } else {
        String::from_str("false")
    }
}

fn leaf(tag: &str, text: String) -> (r: XmlLeaf)
    ensures
        r@ == (tag@, text@),
{
    XmlLeaf { tag: String::from_str(tag), text }
}

fn connection_entry(number: u128, host: String, children: Vec<XmlLeaf>) -> (r: XmlEntry)
    ensures
        r@.tag == "connection"@,
        r@.attributes == seq![("number"@, nat_digits(number as nat)), ("host"@, host@)],
        r@.children == children@.map_values(|l: XmlLeaf| l@),
{
    let mut attributes: Vec<(String, String)> = Vec::new();
    attributes.push((String::from_str("number"), decimal_text(number)));
    attributes.push((String::from_str("host"), host));
    let r = XmlEntry { tag: String::from_str("connection"), attributes, children };
    assert(r@.attributes =~= seq![("number"@, nat_digits(number as nat)), ("host"@, host@)]);
    r
}

fn new_dds_entry(
    number: u128,
    name: String,
    host: String,
    port: i32,
    username: String,
    enabled: bool,
) -> (r: XmlEntry)
    ensures
        r@ == dds_entry(number as nat, name@, host@, port as int, username@, enabled),
{
    let mut children: Vec<XmlLeaf> = Vec::new();
    children.push(leaf("enabled", bool_string(enabled)));
    children.push(leaf("port", int_text(port as i64)));
    children.push(leaf("name", name));
    children.push(leaf("username", username));
    children.push(leaf("authenticate", String::from_str("true")));
    let r = connection_entry(number, host, children);
    assert(r@.children =~= dds_entry(number as nat, name@, host@, port as int, username@, enabled).children);
    r
}

proof fn lemma_connection_attributes_distinct(entries: Seq<XmlEntryView>)
    requires
        forall|k: int|
            0 <= k < entries.len() ==> #[trigger] entries[k].attributes.len() == 2
                && entries[k].attributes[0].0 == "number"@ && entries[k].attributes[1].0
                == "host"@,
    ensures
        distinct_attribute_names(entries),
{
    reveal_strlit("number");
    reveal_strlit("host");
    assert forall|k: int, i: int, j: int|
        0 <= k < entries.len() && 0 <= i < j < entries[k].attributes.len() implies entries[k].attributes[i].0
        != entries[k].attributes[j].0 by {
        assert(entries[k].attributes[0].0[0] != entries[k].attributes[1].0[0]);
    }
}

/// The DDS-receive document: one entry per peer LRGS, in the order given,
/// then one per declared connection, in the order given, numbered from 0.
pub fn create_ddsrecv_conf(peers: &Vec<String>, connections: &Vec<DdsConnection>) -> (r: String)
    ensures
        r@ == dds_recv_text(peers@.map_values(|p: String| p@), connections@),
{
    let ghost peer_views = peers@.map_values(|p: String| p@);
    let mut entries: Vec<XmlEntry> = Vec::new();
    let mut i: usize = 0;
    while i < peers.len()
        invariant
            i <= peers.len(),
            peer_views == peers@.map_values(|p: String| p@),
            entries_view(entries@) =~= peer_entries(peer_views).take(i as int),
        decreases peers.len() - i,
    {
        let name = String::from_str("replication-").concat(decimal_text(i as u128).as_str());
        let e = new_dds_entry(
            i as u128,
            name,
            peers[i].clone(),
            PEER_DDS_PORT,
            String::from_str("replication"),
            true,
        );
        let ghost before = entries_view(entries@);
        entries.push(e);
        proof {
            reveal_strlit("replication-");
            assert(entries_view(entries@) =~= before.push(e@));
            assert(e@ == peer_entries(peer_views)[i as int]);
            assert(peer_entries(peer_views).take(i as int + 1) =~= peer_entries(peer_views).take(
                i as int,
            ).push(e@));
        }
        i = i + 1;
    }
    let mut j: usize = 0;
    while j < connections.len()
        invariant
            j <= connections.len(),
            peer_views == peers@.map_values(|p: String| p@),
            entries_view(entries@) =~= peer_entries(peer_views) + declared_dds_entries(
                peers.len() as nat,
                connections@,
            ).take(j as int),
        decreases connections.len() - j,
    {
        let c = &connections[j];
        let enabled = match c.spec.enabled {
            Some(e) => e,
            None => false,
        };
        let e = new_dds_entry(
            peers.len() as u128 + j as u128,
            c.name.clone(),
            c.spec.hostname.clone(),
            c.spec.port,
            c.spec.username.clone(),
            enabled,
        );
        let ghost before = entries_view(entries@);
        entries.push(e);
        proof {
            let declared = declared_dds_entries(peers.len() as nat, connections@);
            assert(entries_view(entries@) =~= before.push(e@));
            assert(e@ == declared[j as int]);
            assert(declared.take(j as int + 1) =~= declared.take(j as int).push(e@));
        }
        j = j + 1;
    }
    proof {
        let all = dds_recv_entries(peer_views, connections@);
        assert(entries_view(entries@) =~= all);
        lemma_connection_attributes_distinct(all);
    }
    render_config("ddsrecvconf", &entries)
}

/// The DRGS-receive document: one entry per connection, in the order given,
/// numbered from 0.
pub fn create_drgsrecv_conf(connections: &Vec<DrgsConnection>) -> (r: String)
    ensures
        r@ == drgs_recv_text(connections@),
{
    let mut entries: Vec<XmlEntry> = Vec::new();
    let mut i: usize = 0;
    while i < connections.len()
        invariant
            i <= connections.len(),
            entries_view(entries@) =~= drgs_recv_entries(connections@).take(i as int),
        decreases connections.len() - i,
    {
        let c = &connections[i];
        let enabled = match c.spec.enabled {
            Some(e) => e,
            None => true,
        };
        let event_enabled = match c.spec.event_enabled {
            Some(e) => e,
            None => false,
        };
        let mut children: Vec<XmlLeaf> = Vec::new();
        children.push(leaf("name", c.name.clone()));
        children.push(leaf("enabled", bool_string(enabled)));
        children.push(leaf("msgport", decimal_text(c.spec.message_port as u128)));
        children.push(leaf("evtport", decimal_text(c.spec.event_port as u128)));
        children.push(leaf("evtenabled", bool_string(event_enabled)));
        children.push(leaf("startpattern", c.spec.start_pattern.clone()));
        let e = connection_entry(i as u128, c.spec.hostname.clone(), children);
        assert(e@.children =~= drgs_entry(i as nat, connections@[i as int]).children);
        let ghost before = entries_view(entries@);
        entries.push(e);
        proof {
            let all = drgs_recv_entries(connections@);
            assert(entries_view(entries@) =~= before.push(e@));
            assert(all.take(i as int + 1) =~= all.take(i as int).push(e@));
        }
        i = i + 1;
    }
    proof {
        let all = drgs_recv_entries(connections@);
        assert(entries_view(entries@) =~= all);
        lemma_connection_attributes_distinct(all);
    }
    render_config("drgsconf", &entries)
}

} // verus!

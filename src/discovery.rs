//! What a peer learns from an mDNS response: which TXT record names a chat
//! peer, and its id.
use vstd::prelude::*;
use crate::peer::IpAddress;
use crate::text::{drop_chars, has_prefix, same_text, starts_with};

verus! {

/// The TXT entry that marks a chat peer.
pub open spec fn app_tag() -> Seq<char> {
    "app=p2pchat"@
}

/// The prefix of the TXT entry that carries the peer id.
pub open spec fn id_prefix() -> Seq<char> {
    "peer_id="@
}

/// The fields of an mDNS response that discovery reads: the first A or AAAA
/// address, the first PTR name, the TXT records in order (each a list of
/// entries), and the SRV port.
#[derive(Debug)]
pub struct MdnsResponse {
    pub ip: Option<IpAddress>,
    pub instance_name: Option<String>,
    pub txt_records: Vec<Vec<String>>,
    pub port: Option<u16>,
}

/// The entries of a TXT record as character sequences.
pub open spec fn record_view(r: Vec<String>) -> Seq<Seq<char>> {
    r@.map_values(|s: String| s@)
}

/// The TXT records of a response as character sequences.
pub open spec fn records_view(rs: Vec<Vec<String>>) -> Seq<Seq<Seq<char>>> {
    rs@.map_values(|r: Vec<String>| record_view(r))
}

/// The value of the last `peer_id=` entry among `entries`.
pub open spec fn last_id_entry(entries: Seq<Seq<char>>) -> Option<Seq<char>>
    decreases entries.len(),
{
    if entries.len() == 0 {
        None
    } else if has_prefix(entries.last(), id_prefix()) {
        Some(entries.last().subrange(id_prefix().len() as int, entries.last().len() as int))
    } else {
        last_id_entry(entries.drop_last())
    }
}

/// The peer id a TXT record gives: the value of its last `peer_id=` entry,
/// when the record also holds the chat tag.
pub open spec fn record_peer_id(entries: Seq<Seq<char>>) -> Option<Seq<char>> {
    if entries.contains(app_tag()) {
        last_id_entry(entries)
    } else {
        None
    }
}

/// The peer id of a response: the one given by its first TXT record that gives one.
pub open spec fn response_peer_id(records: Seq<Seq<Seq<char>>>) -> Option<Seq<char>>
    decreases records.len(),
{
    if records.len() == 0 {
        None
    } else if record_peer_id(records[0]) is Some {
        record_peer_id(records[0])
    } else {
        response_peer_id(records.drop_first())
    }
}

/// The peer id that a TXT record gives, if any.
pub fn peer_id_of_record(record: &Vec<String>) -> (r: Option<String>)
    ensures
        r matches Some(s) ==> record_peer_id(record_view(*record)) == Some(s@),
        r is None ==> record_peer_id(record_view(*record)) is None,
{
    let ghost es = record_view(*record);
    let mut tagged = false;
    let mut found: Option<String> = None;
    let mut i: usize = 0;
    while i < record.len()
        invariant
            es == record_view(*record),
            i <= record@.len(),
            tagged == es.subrange(0, i as int).contains(app_tag()),
            found matches Some(s) ==> last_id_entry(es.subrange(0, i as int)) == Some(s@),
            found is None ==> last_id_entry(es.subrange(0, i as int)) is None,
        decreases record@.len() - i,
    {
        let entry = record[i].as_str();
        let ghost prev = es.subrange(0, i as int);
        let ghost next = es.subrange(0, i as int + 1);
        assert(next.drop_last() =~= prev);
        assert(next.last() == entry@);
        if starts_with(entry, "peer_id=") {
            proof {
                reveal_strlit("peer_id=");
            }
            found = Some(drop_chars(entry, 8));
        }
        if same_text(entry, "app=p2pchat") {
            tagged = true;
            assert(next[i as int] == app_tag());
        } else {
            proof {
                if next.contains(app_tag()) {
                    let k = choose|k: int| 0 <= k < next.len() && next[k] == app_tag();
                    assert(k != i);
                    assert(prev[k] == app_tag());
                }
                if prev.contains(app_tag()) {
                    let k = choose|k: int| 0 <= k < prev.len() && prev[k] == app_tag();
                    assert(next[k] == app_tag());
                }
            }
        }
        i = i + 1;
    }
    assert(es.subrange(0, i as int) =~= es);
    if tagged {
        found
    } else {
        None
    }
}

/// The peer id of a response, if any of its TXT records gives one.
pub fn peer_id_of_records(records: &Vec<Vec<String>>) -> (r: Option<String>)
    ensures
        r matches Some(s) ==> response_peer_id(records_view(*records)) == Some(s@),
        r is None ==> response_peer_id(records_view(*records)) is None,
{
    let ghost rs = records_view(*records);
    assert(rs.subrange(0, rs.len() as int) =~= rs);
    let mut i: usize = 0;
    while i < records.len()
        invariant
            rs == records_view(*records),
            i <= records@.len(),
            response_peer_id(rs) == response_peer_id(rs.subrange(i as int, rs.len() as int)),
        decreases records@.len() - i,
    {
        let ghost rest = rs.subrange(i as int, rs.len() as int);
        assert(rest.drop_first() =~= rs.subrange(i as int + 1, rs.len() as int));
        assert(rest[0] == record_view(records@[i as int]));
        match peer_id_of_record(&records[i]) {
            Some(s) => {
                return Some(s);
            },
            None => {},
        }
        i = i + 1;
    }
    None
}

} // verus!

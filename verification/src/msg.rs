//! The two textual registration messages.
//!
//! Both messages are derived from a time-to-live rendering, an identifier
//! and a setup name.  The heartbeat message is a single set line; the query
//! message is the heartbeat followed by a query line asking the listener to
//! confirm the registration.

use vstd::prelude::*;
use vstd::string::*;

verus! {

/// The shared message prefix `+{ttl}@se/{identifier}/nicos`.
pub open spec fn spec_prefix(ttl: Seq<char>, id: Seq<char>) -> Seq<char> {
    "+"@ + ttl + "@se/"@ + id + "/nicos"@
}

/// The heartbeat (pure set) message: `{prefix}/setupname='{setupname}'\n`.
pub open spec fn spec_heartbeat_msg(ttl: Seq<char>, id: Seq<char>, setup: Seq<char>) -> Seq<char> {
    spec_prefix(ttl, id) + "/setupname='"@ + setup + "'\n"@
}

/// The query line `{prefix}/setupname?\n` that asks for a reply.
pub open spec fn spec_query_line(ttl: Seq<char>, id: Seq<char>) -> Seq<char> {
    spec_prefix(ttl, id) + "/setupname?\n"@
}

/// The query message: the heartbeat message followed by the query line.
pub open spec fn spec_query_msg(ttl: Seq<char>, id: Seq<char>, setup: Seq<char>) -> Seq<char> {
    spec_heartbeat_msg(ttl, id, setup) + spec_query_line(ttl, id)
}

/// Build the query and heartbeat messages, in that order.
pub fn build_messages(ttl: &str, identifier: &str, setupname: &str) -> (r: (String, String))
    ensures
        r.0@ == spec_query_msg(ttl@, identifier@, setupname@),
        r.1@ == spec_heartbeat_msg(ttl@, identifier@, setupname@),
{
    let mut prefix = String::from_str("+");
    prefix.append(ttl);
    prefix.append("@se/");
    prefix.append(identifier);
    prefix.append("/nicos");

    let mut heartbeat = prefix.clone();
    heartbeat.append("/setupname='");
    heartbeat.append(setupname);
    heartbeat.append("'\n");

    let mut query = heartbeat.clone();
    query.append(prefix.as_str());
    query.append("/setupname?\n");

    proof {
        assert(query@ =~= spec_query_msg(ttl@, identifier@, setupname@));
    }
    (query, heartbeat)
}

/// Law: the query message is exactly the heartbeat message with the query
/// line (built from the same prefix) appended; the heartbeat is therefore a
/// prefix of the query message.
pub proof fn lemma_query_extends_heartbeat(ttl: Seq<char>, id: Seq<char>, setup: Seq<char>)
    ensures
        spec_query_msg(ttl, id, setup) == spec_heartbeat_msg(ttl, id, setup) + spec_query_line(
            ttl,
            id,
        ),
        spec_query_msg(ttl, id, setup).take(spec_heartbeat_msg(ttl, id, setup).len() as int)
            =~= spec_heartbeat_msg(ttl, id, setup),
{
}

/// Law: for inputs free of newline characters, the heartbeat message is a
/// single newline-terminated line: it ends with `'\n'` and contains no other
/// newline.
pub proof fn lemma_heartbeat_single_line(ttl: Seq<char>, id: Seq<char>, setup: Seq<char>)
    requires
        forall|i: int| 0 <= i < ttl.len() ==> ttl[i] != '\n',
        forall|i: int| 0 <= i < id.len() ==> id[i] != '\n',
        forall|i: int| 0 <= i < setup.len() ==> setup[i] != '\n',
    ensures
        spec_heartbeat_msg(ttl, id, setup).len() > 0,
        spec_heartbeat_msg(ttl, id, setup).last() == '\n',
        forall|i: int|
            0 <= i < spec_heartbeat_msg(ttl, id, setup).len() - 1 ==> spec_heartbeat_msg(
                ttl,
                id,
                setup,
            )[i] != '\n',
{
    reveal_strlit("+");
    reveal_strlit("@se/");
    reveal_strlit("/nicos");
    reveal_strlit("/setupname='");
    reveal_strlit("'\n");
    let msg = spec_heartbeat_msg(ttl, id, setup);
    assert(msg.last() == '\n');
    assert forall|i: int| 0 <= i < msg.len() - 1 implies msg[i] != '\n' by {
        assert(msg[i] != '\n');
    }
}

} // verus!

use vstd::prelude::*;
use vstd::string::*;

use crate::error::ValmanError;
use crate::text::{eq_ignore_ascii_case, eq_ignore_case};

verus! {

/// One container as the runtime lists it.
pub struct ContainerRecord {
    /// The container's names; the first one is its primary name.
    pub names: Vec<String>,
    pub id: Option<String>,
    pub state: Option<String>,
    pub status: Option<String>,
}

/// A fresh read of the managed container.
pub struct ContainerInfo {
    pub id: String,
    pub state: String,
    pub uptime: String,
    pub logs: String,
}

impl ContainerInfo {
    pub fn new(id: String, state: String, uptime: String, logs: String) -> (r: ContainerInfo)
        ensures
            r.id == id,
            r.state == state,
            r.uptime == uptime,
            r.logs == logs,
    {
        ContainerInfo { id, state, uptime, logs }
    }
}

/// The runtime prefixes names with a slash; the match ignores ASCII case.
pub open spec fn primary_name_matches(c: ContainerRecord, name: Seq<char>) -> bool {
    c.names@.len() > 0 && eq_ignore_case(c.names@[0]@, "/"@ + name)
}

/// The first listed container whose primary name matches `name`.
pub open spec fn lookup(cs: Seq<ContainerRecord>, name: Seq<char>) -> Option<ContainerRecord>
    decreases cs.len(),
{
    if cs.len() == 0 {
        None
    } else if primary_name_matches(cs[0], name) {
        Some(cs[0])
    } else {
        lookup(cs.drop_first(), name)
    }
}

/// Id, state and status of the container named `name`, or the message of
/// what is missing.
pub open spec fn lookup_outcome(cs: Seq<ContainerRecord>, name: Seq<char>) -> Result<
    (Seq<char>, Seq<char>, Seq<char>),
    Seq<char>,
> {
    match lookup(cs, name) {
        None => Err("Missing Docker container"@),
        Some(c) => match (c.id, c.state, c.status) {
            (None, _, _) => Err("Missing Docker container ID"@),
            (Some(_), None, _) => Err("Missing Docker container state"@),
            (Some(_), Some(_), None) => Err("Missing Docker container status"@),
            (Some(i), Some(s), Some(u)) => Ok((i@, s@, u@)),
        },
    }
}

fn missing(m: &str) -> (r: ValmanError)
    ensures
        r matches ValmanError::Docker(t) && t@ == m@,
{
    let mut t = String::new();
    t.append(m);
    ValmanError::Docker(t)
}

/// Finds the container named `name` in a listing: its id, state and
/// status text.
pub fn find_container_id_and_state_by_name(containers: &Vec<ContainerRecord>, name: &str) -> (r:
    Result<(String, String, String), ValmanError>)
    ensures
        match r {
            Ok((i, s, u)) => lookup_outcome(containers@, name@) == Ok::<
                (Seq<char>, Seq<char>, Seq<char>),
                Seq<char>,
            >((i@, s@, u@)),
            Err(ValmanError::Docker(m)) => lookup_outcome(containers@, name@) == Err::<
                (Seq<char>, Seq<char>, Seq<char>),
                Seq<char>,
            >(m@),
            Err(_) => false,
        },
{
    let mut target = String::new();
    target.append("/");
    target.append(name);
    let n = containers.len();
    let mut i: usize = 0;
    assert(containers@.subrange(0, n as int) =~= containers@);
    while i < n
        invariant
            n == containers@.len(),
            i <= n,
            target@ == "/"@ + name@,
            lookup(containers@, name@) == lookup(containers@.subrange(i as int, n as int), name@),
        decreases n - i,
    {
        let c = &containers[i];
        assert(containers@.subrange(i as int, n as int).drop_first() =~= containers@.subrange(
            i as int + 1,
            n as int,
        ));
        if c.names.len() > 0 && eq_ignore_ascii_case(c.names[0].as_str(), target.as_str()) {
            let id = match &c.id {
                Some(v) => v.clone(),
                None => {
                    return Err(missing("Missing Docker container ID"));
                },
            };
            let state = match &c.state {
                Some(v) => v.clone(),
                None => {
                    return Err(missing("Missing Docker container state"));
                },
            };
            let status = match &c.status {
                Some(v) => v.clone(),
                None => {
                    return Err(missing("Missing Docker container status"));
                },
            };
            return Ok((id, state, status));
        }
        i += 1;
    }
    Err(missing("Missing Docker container"))
}

/// The bytes of one log chunk; a chunk that could not be read counts as empty.
pub open spec fn chunk_bytes(c: Option<Vec<u8>>) -> Seq<u8> {
    match c {
        Some(v) => v@,
        None => Seq::empty(),
    }
}

/// All chunks' bytes, in order.
pub open spec fn joined(cs: Seq<Option<Vec<u8>>>) -> Seq<u8>
    decreases cs.len(),
{
    if cs.len() == 0 {
        Seq::empty()
    } else {
        joined(cs.drop_last()) + chunk_bytes(cs.last())
    }
}

/// What `String::from_utf8_lossy` makes of a byte sequence.
pub uninterp spec fn utf8_lossy(bytes: Seq<u8>) -> Seq<char>;

/// Relies on `String::from_utf8_lossy`: text of the bytes, with each
/// invalid sequence replaced; the result depends on the bytes alone.
#[verifier::external_body]
fn decode_lossy(bytes: &Vec<u8>) -> (r: String)
    ensures
        r@ == utf8_lossy(bytes@),
{
    String::from_utf8_lossy(bytes.as_slice()).into_owned()
}

/// The log text of a container from the chunks the runtime streamed;
/// chunks that failed are left out.
pub fn collect_logs(chunks: &Vec<Option<Vec<u8>>>) -> (r: String)
    ensures
        r@ == utf8_lossy(joined(chunks@)),
{
    let mut bytes: Vec<u8> = Vec::new();
    let n = chunks.len();
    let mut i: usize = 0;
    while i < n
        invariant
            n == chunks@.len(),
            i <= n,
            bytes@ == joined(chunks@.subrange(0, i as int)),
        decreases n - i,
    {
        assert(chunks@.subrange(0, i as int + 1).drop_last() =~= chunks@.subrange(0, i as int));
        match &chunks[i] {
            Some(v) => {
                bytes.extend_from_slice(v.as_slice());
            },
            None => {},
        }
        i += 1;
    }
    assert(chunks@.subrange(0, n as int) =~= chunks@);
    decode_lossy(&bytes)
}

/// The status picture: "ok" for a running container, "cross" otherwise
/// or when the container could not be read.
pub open spec fn status_image_text(info: Option<ContainerInfo>) -> Seq<char> {
    match info {
        Some(ci) => if eq_ignore_case(ci.state@, "running"@) {
            "ok"@
        } else {
            "cross"@
        },
        None => "cross"@,
    }
}

pub fn status_image(info: &Option<ContainerInfo>) -> (r: String)
    ensures
        r@ == status_image_text(*info),
{
    let mut out = String::new();
    let running = match info {
        Some(ci) => eq_ignore_ascii_case(ci.state.as_str(), "running"),
        None => false,
    };
    if running {
        out.append("ok");
    } else {
        out.append("cross");
    }
    out
}

} // verus!

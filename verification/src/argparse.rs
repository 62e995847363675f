//! Layering of the tool's options.
//!
//! The options come from three places — built-in defaults, an optional
//! configuration file, and the command line — and the later source wins
//! field by field, except that the UDS command lists concatenate.  The
//! command-line and file readers live outside the library; they hand their
//! fields here as plain strings.

use vstd::prelude::*;

verus! {

/// One layer of options, every field as its source wrote it.
#[derive(Debug)]
pub struct Options {
    pub local_diag_socket: Option<String>,
    pub remote_diag_socket: Option<String>,
    pub broadcast_diag_socket: Option<String>,
    pub discover: bool,
    pub doip_local_addr: Option<String>,
    pub doip_target_addr: Option<String>,
    pub configfile: Option<String>,
    pub uds_commands: Vec<String>,
    pub scenario: Option<String>,
}

/// The value of an optional string field.
pub open spec fn opt_text(o: Option<String>) -> Option<Seq<char>> {
    match o {
        Some(s) => Some(s@),
        None => None,
    }
}

/// The value of a list of strings.
pub open spec fn texts(v: Seq<String>) -> Seq<Seq<char>> {
    v.map_values(|s: String| s@)
}

/// The later layer wins where it says anything.
pub open spec fn spec_override(below: Option<Seq<char>>, above: Option<Seq<char>>) -> Option<
    Seq<char>,
> {
    match above {
        Some(s) => Some(s),
        None => below,
    }
}

fn override_field(below: Option<String>, above: Option<String>) -> (r: Option<String>)
    ensures
        opt_text(r) == spec_override(opt_text(below), opt_text(above)),
{
    match above {
        Some(s) => Some(s),
        None => below,
    }
}

/// Lay one options layer over another: every field of the upper layer that
/// says anything wins; the discovery flag holds once either layer sets it;
/// the UDS command lists concatenate, lower layer first.
pub fn override_opts(src: Options, overrider: Options) -> (r: Options)
    ensures
        opt_text(r.local_diag_socket) == spec_override(
            opt_text(src.local_diag_socket),
            opt_text(overrider.local_diag_socket),
        ),
        opt_text(r.remote_diag_socket) == spec_override(
            opt_text(src.remote_diag_socket),
            opt_text(overrider.remote_diag_socket),
        ),
        opt_text(r.broadcast_diag_socket) == spec_override(
            opt_text(src.broadcast_diag_socket),
            opt_text(overrider.broadcast_diag_socket),
        ),
        r.discover == (overrider.discover || src.discover),
        opt_text(r.doip_local_addr) == spec_override(
            opt_text(src.doip_local_addr),
            opt_text(overrider.doip_local_addr),
        ),
        opt_text(r.doip_target_addr) == spec_override(
            opt_text(src.doip_target_addr),
            opt_text(overrider.doip_target_addr),
        ),
        opt_text(r.configfile) == spec_override(
            opt_text(src.configfile),
            opt_text(overrider.configfile),
        ),
        texts(r.uds_commands@) == texts(src.uds_commands@) + texts(overrider.uds_commands@),
        opt_text(r.scenario) == spec_override(opt_text(src.scenario), opt_text(overrider.scenario)),
{
    Options {
        local_diag_socket: override_field(src.local_diag_socket, overrider.local_diag_socket),
        remote_diag_socket: override_field(src.remote_diag_socket, overrider.remote_diag_socket),
        broadcast_diag_socket: override_field(
            src.broadcast_diag_socket,
            overrider.broadcast_diag_socket,
        ),
        discover: overrider.discover || src.discover,
        doip_local_addr: override_field(src.doip_local_addr, overrider.doip_local_addr),
        doip_target_addr: override_field(src.doip_target_addr, overrider.doip_target_addr),
        configfile: override_field(src.configfile, overrider.configfile),
        uds_commands: concat_commands(src.uds_commands, overrider.uds_commands),
        scenario: override_field(src.scenario, overrider.scenario),
    }
}

/// The two command lists, one after the other.
fn concat_commands(below: Vec<String>, above: Vec<String>) -> (r: Vec<String>)
    ensures
        texts(r@) == texts(below@) + texts(above@),
{
    let mut r = below;
    let ghost base = r@;
    let mut i: usize = 0;
    while i < above.len()
        invariant
            i <= above@.len(),
            r@.len() == base.len() + i,
            forall|j: int| 0 <= j < base.len() ==> r@[j] == base[j],
            forall|j: int| 0 <= j < i ==> r@[base.len() + j]@ == above@[j]@,
        decreases above@.len() - i,
    {
        let c = crate::parser::copy_string(&above[i]);
        r.push(c);
        i += 1;
    }
    proof {
        assert(texts(r@) =~~= texts(base) + texts(above@));
    }
    r
}

} // verus!

//! Definitions shared by the command line side and the daemon.

pub mod config;
pub mod config_file;
pub mod error;
pub mod logging;
pub mod paths;

pub use error::{Error, IpcError};
use vstd::prelude::*;

verus! {

/// The address in a line of a TCP adapter's output: the text after
/// `listening at:`, trimmed, with `[::]:` read as `127.0.0.1:`.
pub open spec fn listen_address_spec(line: Seq<char>) -> Option<Seq<char>> {
    if crate::text::contains_seq(line, "listening at:"@) {
        let i = choose|i: int| crate::text::occurs_at(line, "listening at:"@, i) && forall|j: int|
            0 <= j < i ==> !crate::text::occurs_at(line, "listening at:"@, j);
        let addr = crate::text::trimmed(line.skip(i + 13));
        if crate::text::has_prefix(addr, "[::]:"@) {
            Some(crate::text::replaced(addr, "[::]:"@, "127.0.0.1:"@))
        } else {
            Some(addr)
        }
    } else {
        None
    }
}

proof fn lemma_first_occurrence_unique(s: Seq<char>, p: Seq<char>, i: int, k: int)
    requires
        crate::text::occurs_at(s, p, i),
        forall|j: int| 0 <= j < i ==> !crate::text::occurs_at(s, p, j),
        crate::text::occurs_at(s, p, k),
        forall|j: int| 0 <= j < k ==> !crate::text::occurs_at(s, p, j),
    ensures
        i == k,
{
    if i < k {
        assert(!crate::text::occurs_at(s, p, i));
    } else if k < i {
        assert(!crate::text::occurs_at(s, p, k));
    }
}

/// The address a TCP adapter says it listens at, read from one line of its
/// output.
pub fn parse_listen_address(line: &str) -> (r: Option<String>)
    ensures
        opt_chars(r) == listen_address_spec(line@),
{
    let cs = crate::text::chars_of(line);
    let key = crate::text::chars_of("listening at:");
    proof {
        reveal_strlit("listening at:");
        reveal_strlit("[::]:");
    }
    match crate::text::find_seq(cs.as_slice(), key.as_slice()) {
        None => None,
        Some(i) => {
            let ghost k = choose|k: int| crate::text::occurs_at(line@, "listening at:"@, k) && forall|j: int|
                0 <= j < k ==> !crate::text::occurs_at(line@, "listening at:"@, j);
            proof {
                assert(crate::text::contains_seq(line@, "listening at:"@));
                lemma_first_occurrence_unique(line@, "listening at:"@, i as int, k);
            }
            let n = cs.len();
            assert(i + 13 <= n);
            let rest = crate::text::slice_range(cs.as_slice(), i + 13, n);
            proof {
                assert(rest@ =~= line@.skip(i + 13));
            }
            let addr = crate::text::trim(rest.as_slice());
            let wild = crate::text::chars_of("[::]:");
            if crate::text::starts_with(addr.as_slice(), wild.as_slice()) {
                let local = crate::text::chars_of("127.0.0.1:");
                let out = crate::text::replace(addr.as_slice(), wild.as_slice(), local.as_slice());
                Some(crate::text::string_from(out.as_slice()))
            } else {
                Some(crate::text::string_from(addr.as_slice()))
            }
        },
    }
}

/// The view of an optional string.
pub open spec fn opt_chars(o: Option<String>) -> Option<Seq<char>> {
    match o {
        Some(s) => Some(s@),
        None => None,
    }
}

} // verus!

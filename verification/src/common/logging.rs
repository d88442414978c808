//! Where the daemon writes its log.

use vstd::prelude::*;

verus! {

/// The daemon's log file, `logs/daemon.log` inside a data directory, when
/// there is one.
pub fn daemon_log_in(data_dir: Option<String>) -> (r: Option<String>)
    ensures
        match data_dir {
            Some(d) => (r matches Some(p) && p@ == crate::common::paths::path_join(
                crate::common::paths::path_join(d@, "logs"@),
                "daemon.log"@,
            )),
            None => r is None,
        },
{
    crate::common::paths::inside_dir(crate::common::paths::log_dir_in(data_dir), "daemon.log")
}

/// The daemon's log file, `daemon.log` in the log directory; `None` when
/// the platform gives no data directory.
pub fn daemon_log_path() -> (r: Option<String>)
    ensures
        r matches Some(p) ==> exists|d: Seq<char>|
            crate::common::paths::path_has_component(d, "debugger-cli"@) && p@ == #[trigger] crate::common::paths::path_join(
            crate::common::paths::path_join(d, "logs"@),
            "daemon.log"@,
        ),
{
    daemon_log_in(crate::common::paths::data_dir())
}

/// The last `n` lines of a log's text, or all of them when it has fewer.
pub fn last_lines(text: &str, n: usize) -> (r: Vec<Vec<char>>)
    ensures
        crate::text::views(r@) == crate::daemon::session::tail_of(crate::text::lines_of(text@), n as nat),
{
    let cs = crate::text::chars_of(text);
    let all = crate::text::lines(cs.as_slice());
    let start: usize = if n >= all.len() {
        0
    } else {
        all.len() - n
    };
    let mut out: Vec<Vec<char>> = Vec::new();
    let mut k: usize = start;
    while k < all.len()
        invariant
            start <= k <= all@.len(),
            crate::text::views(out@) == crate::text::views(all@).subrange(start as int, k as int),
        decreases all@.len() - k,
    {
        proof {
            crate::text::lemma_views_push(out@, all@[k as int]);
            assert(crate::text::views(all@).subrange(start as int, k + 1) =~= crate::text::views(
                all@,
            ).subrange(start as int, k as int).push(all@[k as int]@));
        }
        out.push(crate::text::to_vec(all[k].as_slice()));
        k = k + 1;
    }
    proof {
        assert(crate::text::views(all@).subrange(start as int, all@.len() as int) =~= crate::daemon::session::tail_of(
            crate::text::views(all@),
            n as nat,
        ));
    }
    out
}

/// One look at a followed log: `seen` bytes were shown and the file now
/// holds `now_len`. A file that shrank was truncated and is shown again from
/// its start. Gives where to show from and how far the file is then shown;
/// nothing is new when the two are equal.
pub fn follow_step(seen: usize, now_len: usize) -> (r: (usize, usize))
    ensures
        r.0 == (if now_len < seen { 0 } else { seen }),
        r.1 == (if now_len > r.0 { now_len } else { r.0 }),
{
    let from = if now_len < seen {
        0
    } else {
        seen
    };
    if now_len > from {
        (from, now_len)
    } else {
        (from, from)
    }
}

} // verus!

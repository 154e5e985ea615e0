use vstd::prelude::*;
use vstd::multiset::Multiset;
use vstd::string::*;

use crate::text::{datetime_cell, datetime_cell_text};

verus! {

broadcast use vstd::seq_lib::group_to_multiset_ensures;

/// How many backups the dashboard lists: the most recent ones.
pub const RECENT_BACKUPS: usize = 5;

/// One file of the backup directory.
pub struct BackupFile {
    pub name: String,
    /// Creation time, in seconds on the local wall clock.
    pub created: i64,
    /// Size in bytes.
    pub size: u64,
}

/// Ascending by creation time.
pub open spec fn sorted_by_creation(s: Seq<BackupFile>) -> bool {
    forall|i: int, j: int| 0 <= i < j < s.len() ==> s[i].created <= s[j].created
}

/// Orders a listing of the backup directory oldest first. A listing that is
/// already in order comes back unchanged, so ordering twice changes nothing.
pub fn sort_by_creation(files: Vec<BackupFile>) -> (r: Vec<BackupFile>)
    ensures
        sorted_by_creation(r@),
        r@.to_multiset() == files@.to_multiset(),
        sorted_by_creation(files@) ==> r@ == files@,
{
    let ghost all = files@;
    let mut rest = files;
    let mut out: Vec<BackupFile> = Vec::new();
    assert(out@ + rest@ =~= all);
    while rest.len() > 0
        invariant
            sorted_by_creation(out@),
            out@.to_multiset().add(rest@.to_multiset()) == all.to_multiset(),
            forall|i: int, j: int|
                0 <= i < out@.len() && 0 <= j < rest@.len() ==> out@[i].created
                    <= rest@[j].created,
            sorted_by_creation(all) ==> out@ + rest@ == all,
        decreases rest.len(),
    {
        let n = rest.len();
        let mut m: usize = 0;
        let mut k: usize = 1;
        while k < n
            invariant
                n == rest@.len(),
                1 <= k <= n,
                m < k,
                forall|j: int| 0 <= j < k ==> rest@[m as int].created <= rest@[j].created,
                sorted_by_creation(rest@) ==> m == 0,
            decreases n - k,
        {
            if rest[k].created < rest[m].created {
                m = k;
            }
            k += 1;
        }
        proof {
            if sorted_by_creation(all) {
                assert forall|i: int, j: int| 0 <= i < j < rest@.len() implies rest@[i].created
                    <= rest@[j].created by {
                    assert(rest@[i] == all[out@.len() + i]);
                    assert(rest@[j] == all[out@.len() + j]);
                }
            }
        }
        let ghost old_out = out@;
        let ghost old_rest = rest@;
        let f = rest.remove(m);
        out.push(f);
        proof {
            assert(old_rest.to_multiset().remove(f).insert(f) =~= old_rest.to_multiset());
            assert(out@.to_multiset().add(rest@.to_multiset()) =~= old_out.to_multiset().add(
                old_rest.to_multiset(),
            ));
            assert forall|i: int, j: int|
                0 <= i < out@.len() && 0 <= j < rest@.len() implies out@[i].created
                <= rest@[j].created by {
                if j < m {
                    assert(rest@[j] == old_rest[j]);
                } else {
                    assert(rest@[j] == old_rest[j + 1]);
                }
            }
            if sorted_by_creation(all) {
                assert(out@ + rest@ =~= old_out + old_rest);
            }
        }
    }
    assert(out@ + rest@ =~= out@);
    assert(rest@.to_multiset() =~= Multiset::empty());
    assert(out@.to_multiset().add(Multiset::empty()) =~= out@.to_multiset());
    out
}

/// How many of `n` backups are listed.
pub open spec fn recent_count(n: int) -> int {
    if n < RECENT_BACKUPS {
        n
    } else {
        RECENT_BACKUPS as int
    }
}

/// The most recent backups of an ordered listing: its last `recent_count` entries.
pub open spec fn recent_view(s: Seq<BackupFile>) -> Seq<BackupFile> {
    s.subrange(s.len() - recent_count(s.len() as int), s.len() as int)
}

/// Keeps the most recent backups of an ordered listing.
pub fn recent_backups(files: Vec<BackupFile>) -> (r: Vec<BackupFile>)
    ensures
        r@ == recent_view(files@),
{
    let mut all = files;
    if all.len() > RECENT_BACKUPS {
        let at = all.len() - RECENT_BACKUPS;
        all.split_off(at)
    } else {
        assert(all@.subrange(0, all@.len() as int) =~= all@);
        all
    }
}

/// The recent view of an ordered listing of `N` backups holds `min(N, 5)`
/// of them, still oldest first.
pub proof fn lemma_recent_view_ordered(s: Seq<BackupFile>)
    requires
        sorted_by_creation(s),
    ensures
        recent_view(s).len() == if s.len() < RECENT_BACKUPS {
            s.len() as int
        } else {
            RECENT_BACKUPS as int
        },
        sorted_by_creation(recent_view(s)),
{
    let v = recent_view(s);
    let d = s.len() - recent_count(s.len() as int);
    assert forall|i: int, j: int| 0 <= i < j < v.len() implies v[i].created <= v[j].created by {
        assert(v[i] == s[d + i]);
        assert(v[j] == s[d + j]);
    }
}

/// What humansize's `format_size` writes for a byte count with its decimal units.
pub uninterp spec fn decimal_size_text(bytes: int) -> Seq<char>;

/// Relies on `humansize::format_size` with `DECIMAL` options: the size
/// written with decimal (kB, MB, ...) units; it depends on the count alone.
#[verifier::external_body]
fn human_size(bytes: u64) -> (r: String)
    ensures
        r@ == decimal_size_text(bytes as int),
{
    humansize::format_size(bytes, humansize::DECIMAL)
}

/// One table row of a backup: download link, creation time, size and
/// restore button.
pub open spec fn backup_row(f: BackupFile) -> Seq<char> {
    "<tr><td><a href=\"/backups/"@ + f.name@ + "\">"@ + f.name@ + "</a></td><td>"@
        + datetime_cell(f.created) + "</td><td>"@ + decimal_size_text(f.size as int)
        + "</td><td style=\"text-align: end;\"><a href=\"/backups/restore/"@ + f.name@
        + "\" class=\"restore-btn\" role=\"button\" style=\"padding: 10px; width: 100%;\">Restore</a></td></tr>"@
}

/// The rows of all backups, in order.
pub open spec fn backup_rows_text(s: Seq<BackupFile>) -> Seq<char>
    decreases s.len(),
{
    if s.len() == 0 {
        Seq::empty()
    } else {
        backup_rows_text(s.drop_last()) + backup_row(s.last())
    }
}

fn push_row(out: &mut String, f: &BackupFile)
    ensures
        final(out)@ == old(out)@ + backup_row(*f),
{
    let date = datetime_cell_text(f.created);
    let size = human_size(f.size);
    out.append("<tr><td><a href=\"/backups/");
    out.append(f.name.as_str());
    out.append("\">");
    out.append(f.name.as_str());
    out.append("</a></td><td>");
    out.append(date.as_str());
    out.append("</td><td>");
    out.append(size.as_str());
    out.append("</td><td style=\"text-align: end;\"><a href=\"/backups/restore/");
    out.append(f.name.as_str());
    out.append(
        "\" class=\"restore-btn\" role=\"button\" style=\"padding: 10px; width: 100%;\">Restore</a></td></tr>",
    );
    assert(final(out)@ =~= old(out)@ + backup_row(*f));
}

/// The table rows of the given backups.
pub fn backup_rows(files: &Vec<BackupFile>) -> (r: String)
    ensures
        r@ == backup_rows_text(files@),
{
    let mut out = String::new();
    let n = files.len();
    let mut i: usize = 0;
    while i < n
        invariant
            n == files@.len(),
            i <= n,
            out@ == backup_rows_text(files@.subrange(0, i as int)),
        decreases n - i,
    {
        assert(files@.subrange(0, i as int + 1).drop_last() =~= files@.subrange(0, i as int));
        push_row(&mut out, &files[i]);
        i += 1;
    }
    assert(files@.subrange(0, n as int) =~= files@);
    out
}

} // verus!

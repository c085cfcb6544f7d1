//! The rotation protocol and its safety argument. A directory's parent is
//! modelled as a map from entry name to content; a rename moves the content
//! from one name to another and is "nothing to do" when the source name is
//! absent — exactly the tolerated-missing semantics of the planned renames.
//! Rotation archives the previous backup under a timestamped name, then
//! demotes the live directory to the backup slot; it never discards
//! content.

use vstd::prelude::*;

use crate::config::ConfigModel;
use crate::plan::FsOpModel;
use crate::plan::spec_acme_archive;
use crate::plan::spec_acme_backup;
use crate::plan::spec_acme_rotation_plan;
use crate::plan::spec_nginx_archive;
use crate::plan::spec_nginx_backup;
use crate::plan::spec_nginx_live;
use crate::plan::spec_webserver_plan;

verus! {

/// The effect of one tolerated-missing rename on a directory: when `from`
/// is present its content moves to `to`; otherwise nothing happens.
pub open spec fn rename_applied<C>(
    fs: Map<Seq<char>, C>,
    from: Seq<char>,
    to: Seq<char>,
) -> Map<Seq<char>, C> {
    if fs.contains_key(from) {
        fs.remove(from).insert(to, fs[from])
    } else {
        fs
    }
}

/// One rotation of a root: archive the backup slot under the timestamped
/// archive name, then demote the live name to the backup slot.
pub open spec fn spec_rotate<C>(
    fs: Map<Seq<char>, C>,
    live: Seq<char>,
    backup: Seq<char>,
    archive: Seq<char>,
) -> Map<Seq<char>, C> {
    rename_applied(rename_applied(fs, backup, archive), live, backup)
}

/// One whole run on a root: rotate, then repopulate the live name with this
/// run's freshly generated content.
pub open spec fn spec_run<C>(
    fs: Map<Seq<char>, C>,
    live: Seq<char>,
    backup: Seq<char>,
    archive: Seq<char>,
    fresh: C,
) -> Map<Seq<char>, C> {
    spec_rotate(fs, live, backup, archive).insert(live, fresh)
}

/// N consecutive runs on one root; each run brings its archive name (the
/// timestamped destination of the old backup) and the content it writes.
pub open spec fn spec_run_seq<C>(
    fs: Map<Seq<char>, C>,
    live: Seq<char>,
    backup: Seq<char>,
    runs: Seq<(Seq<char>, C)>,
) -> Map<Seq<char>, C>
    decreases runs.len(),
{
    if runs.len() == 0 {
        fs
    } else {
        spec_run_seq(
            spec_run(fs, live, backup, runs[0].0, runs[0].1),
            live,
            backup,
            runs.subrange(1, runs.len() as int),
        )
    }
}

/// `k` is the archive name of one of the runs.
pub open spec fn is_archive_name<C>(runs: Seq<(Seq<char>, C)>, k: Seq<char>) -> bool {
    exists|i: int| 0 <= i < runs.len() && #[trigger] runs[i].0 == k
}

/// The names a sequence of runs is sound for: live, backup and the archive
/// names are pairwise distinct, and no archive name is taken yet — the
/// timestamps name the archives uniquely.
pub open spec fn runs_ok<C>(
    fs: Map<Seq<char>, C>,
    live: Seq<char>,
    backup: Seq<char>,
    runs: Seq<(Seq<char>, C)>,
) -> bool {
    &&& live != backup
    &&& forall|i: int|
        0 <= i < runs.len() ==> #[trigger] runs[i].0 != live && runs[i].0 != backup
            && !fs.contains_key(runs[i].0)
    &&& forall|i: int, j: int|
        #![trigger runs[i].0, runs[j].0]
        0 <= i < j < runs.len() ==> runs[i].0 != runs[j].0
}

/// Law: one rotation never deletes content. Whatever was live is now the
/// backup; whatever was the backup is now the archive; every other name is
/// untouched; and the live name is freed for the new generation.
pub proof fn lemma_rotate_preserves<C>(
    fs: Map<Seq<char>, C>,
    live: Seq<char>,
    backup: Seq<char>,
    archive: Seq<char>,
)
    requires
        live != backup,
        archive != live,
        archive != backup,
        !fs.contains_key(archive),
    ensures
        ({
            let r = spec_rotate(fs, live, backup, archive);
            &&& fs.contains_key(live) ==> r.contains_key(backup) && r[backup] == fs[live]
            &&& !fs.contains_key(live) ==> !r.contains_key(backup)
            &&& fs.contains_key(backup) ==> r.contains_key(archive) && r[archive] == fs[backup]
            &&& !fs.contains_key(backup) ==> !r.contains_key(archive)
            &&& !r.contains_key(live)
            &&& forall|k: Seq<char>|
                k != live && k != backup && k != archive ==> ((#[trigger] r.contains_key(k)
                    <==> fs.contains_key(k)) && (fs.contains_key(k) ==> r[k] == fs[k]))
        }),
{
}

/// One run confines new names to the live, backup and archive slots.
pub proof fn lemma_run_key_bound<C>(
    fs: Map<Seq<char>, C>,
    live: Seq<char>,
    backup: Seq<char>,
    archive: Seq<char>,
    fresh: C,
    k: Seq<char>,
)
    ensures
        spec_run(fs, live, backup, archive, fresh).contains_key(k) ==> (fs.contains_key(k) || k
            == live || k == backup || k == archive),
{
}

/// Law: one whole run keeps the live generation recoverable: the content
/// that was live sits at the backup name, the content that was the backup
/// sits at the archive name, nothing else moved, and the live name holds
/// the new generation.
pub proof fn lemma_run_once<C>(
    fs: Map<Seq<char>, C>,
    live: Seq<char>,
    backup: Seq<char>,
    archive: Seq<char>,
    fresh: C,
)
    requires
        live != backup,
        archive != live,
        archive != backup,
        !fs.contains_key(archive),
    ensures
        ({
            let r = spec_run(fs, live, backup, archive, fresh);
            &&& r.contains_key(live) && r[live] == fresh
            &&& fs.contains_key(live) ==> r.contains_key(backup) && r[backup] == fs[live]
            &&& !fs.contains_key(live) ==> !r.contains_key(backup)
            &&& fs.contains_key(backup) ==> r.contains_key(archive) && r[archive] == fs[backup]
            &&& !fs.contains_key(backup) ==> !r.contains_key(archive)
            &&& forall|k: Seq<char>|
                k != live && k != backup && k != archive ==> ((#[trigger] r.contains_key(k)
                    <==> fs.contains_key(k)) && (fs.contains_key(k) ==> r[k] == fs[k]))
        }),
{
    lemma_rotate_preserves(fs, live, backup, archive);
}

/// Law: over any sequence of N consecutive runs with distinct, fresh
/// timestamps, no generation is ever lost. After the last run, the newest
/// content is live, the generation before it sits at the backup name, and
/// every generation demoted earlier sits at exactly the archive name of the
/// run that archived it: the i-th run's content is archived by run i+2, the
/// initially live content by run 1 (or rests at the backup name after a
/// single run), and the initial backup by run 0. Every name outside the
/// rotation's three slots is untouched.
pub proof fn lemma_run_seq_no_loss<C>(
    fs: Map<Seq<char>, C>,
    live: Seq<char>,
    backup: Seq<char>,
    runs: Seq<(Seq<char>, C)>,
)
    requires
        runs.len() >= 1,
        runs_ok(fs, live, backup, runs),
    ensures
        spec_run_seq(fs, live, backup, runs).contains_key(live) && spec_run_seq(
            fs,
            live,
            backup,
            runs,
        )[live] == runs[runs.len() - 1].1,
        runs.len() >= 2 ==> spec_run_seq(fs, live, backup, runs).contains_key(backup)
            && spec_run_seq(fs, live, backup, runs)[backup] == runs[runs.len() - 2].1,
        (runs.len() == 1 && fs.contains_key(live)) ==> spec_run_seq(
            fs,
            live,
            backup,
            runs,
        ).contains_key(backup) && spec_run_seq(fs, live, backup, runs)[backup] == fs[live],
        fs.contains_key(backup) ==> spec_run_seq(fs, live, backup, runs).contains_key(runs[0].0)
            && spec_run_seq(fs, live, backup, runs)[runs[0].0] == fs[backup],
        (runs.len() >= 2 && fs.contains_key(live)) ==> spec_run_seq(
            fs,
            live,
            backup,
            runs,
        ).contains_key(runs[1].0) && spec_run_seq(fs, live, backup, runs)[runs[1].0] == fs[live],
        forall|i: int|
            0 <= i < runs.len() - 2 ==> spec_run_seq(fs, live, backup, runs).contains_key(
                #[trigger] runs[i + 2].0,
            ) && spec_run_seq(fs, live, backup, runs)[runs[i + 2].0] == runs[i].1,
        forall|k: Seq<char>|
            k != live && k != backup && !is_archive_name(runs, k) ==> ((#[trigger] spec_run_seq(
                fs,
                live,
                backup,
                runs,
            ).contains_key(k) <==> fs.contains_key(k)) && (fs.contains_key(k) ==> spec_run_seq(
                fs,
                live,
                backup,
                runs,
            )[k] == fs[k])),
    decreases runs.len(),
{
    let n = runs.len() as int;
    let a0 = runs[0].0;
    let c0 = runs[0].1;
    let fs1 = spec_run(fs, live, backup, a0, c0);
    let tail = runs.subrange(1, n);
    lemma_run_once(fs, live, backup, a0, c0);
    if n == 1 {
        assert(spec_run_seq(fs1, live, backup, tail) == fs1);
        let r = spec_run_seq(fs, live, backup, runs);
        assert(r == fs1);
        assert forall|k: Seq<char>|
            k != live && k != backup && !is_archive_name(runs, k) implies ((
        #[trigger] r.contains_key(k) <==> fs.contains_key(k)) && (fs.contains_key(k) ==> r[k]
            == fs[k])) by {
            if runs[0].0 == k {
                assert(is_archive_name(runs, k));
            }
            assert(k != a0);
        }
    } else {
        assert forall|i: int| 0 <= i < tail.len() implies #[trigger] tail[i].0 != live
            && tail[i].0 != backup && !fs1.contains_key(tail[i].0) by {
            assert(tail[i] == runs[i + 1]);
            assert(runs[i + 1].0 != runs[0].0);
            lemma_run_key_bound(fs, live, backup, a0, c0, tail[i].0);
        }
        assert forall|i: int, j: int|
            #![trigger tail[i].0, tail[j].0]
            0 <= i < j < tail.len() implies tail[i].0 != tail[j].0 by {
            assert(tail[i] == runs[i + 1]);
            assert(tail[j] == runs[j + 1]);
        }
        lemma_run_seq_no_loss(fs1, live, backup, tail);
        let r = spec_run_seq(fs1, live, backup, tail);
        let m = tail.len() as int;
        assert(tail[m - 1] == runs[n - 1]);
        // the generation demoted by run 0 is archived by run 1
        if fs.contains_key(live) {
            assert(fs1.contains_key(backup) && fs1[backup] == fs[live]);
            assert(tail[0] == runs[1]);
            assert(r.contains_key(runs[1].0) && r[runs[1].0] == fs[live]);
        }
        // the initial backup, archived by run 0, rests there ever after
        if fs.contains_key(backup) {
            assert(fs1.contains_key(a0) && fs1[a0] == fs[backup]);
            assert(!is_archive_name(tail, a0));
            assert(r.contains_key(a0) && r[a0] == fs[backup]);
        }
        // run i's content is archived by run i+2
        assert forall|i: int| 0 <= i < n - 2 implies r.contains_key(#[trigger] runs[i + 2].0)
            && r[runs[i + 2].0] == runs[i].1 by {
            if i == 0 {
                assert(fs1.contains_key(live) && fs1[live] == c0);
                assert(tail[1] == runs[2]);
            } else {
                assert(tail[(i - 1) + 2] == runs[i + 2]);
                assert(tail[i - 1] == runs[i]);
            }
        }
        if n == 2 {
            assert(fs1.contains_key(live) && fs1[live] == c0);
            assert(r.contains_key(backup) && r[backup] == runs[0].1);
        } else {
            assert(tail[m - 2] == runs[n - 2]);
        }
        // names outside the three slots are untouched
        assert forall|k: Seq<char>|
            k != live && k != backup && !is_archive_name(runs, k) implies ((
        #[trigger] r.contains_key(k) <==> fs.contains_key(k)) && (fs.contains_key(k) ==> r[k]
            == fs[k])) by {
            if runs[0].0 == k {
                assert(is_archive_name(runs, k));
            }
            assert(k != a0);
            assert(!is_archive_name(tail, k)) by {
                if is_archive_name(tail, k) {
                    let i = choose|i: int| 0 <= i < tail.len() && #[trigger] tail[i].0 == k;
                    assert(runs[i + 1].0 == k);
                    assert(is_archive_name(runs, k));
                }
            }
            assert(fs1.contains_key(k) <==> fs.contains_key(k));
            assert(fs.contains_key(k) ==> fs1[k] == fs[k]);
            assert(r.contains_key(k) <==> fs1.contains_key(k));
            assert(fs1.contains_key(k) ==> r[k] == fs1[k]);
        }
        assert(spec_run_seq(fs, live, backup, runs) == r);
    }
}

/// Law: the names the proxy-side rotation works with are pairwise
/// distinct, whatever the root and the timestamp; so the rotation's
/// preconditions ask only that the run's archive name is not taken yet.
pub proof fn lemma_nginx_names_distinct(home: Seq<char>, ts: Seq<char>)
    ensures
        spec_nginx_live(home) != spec_nginx_backup(home),
        spec_nginx_live(home) != spec_nginx_archive(home, ts),
        spec_nginx_backup(home) != spec_nginx_archive(home, ts),
{
    reveal_strlit("nginx");
    reveal_strlit("nginx-old");
    reveal_strlit("nginx-old-");
    reveal_strlit("/");
    assert(spec_nginx_live(home).len() == home.len() + 6);
    assert(spec_nginx_backup(home).len() == home.len() + 10);
    assert(spec_nginx_archive(home, ts).len() == home.len() + 11 + ts.len());
}

/// Law: the certificate-side backup and archive names are distinct,
/// whatever the root and the timestamp.
pub proof fn lemma_acme_names_distinct(root: Seq<char>, ts: Seq<char>)
    ensures
        spec_acme_backup(root) != spec_acme_archive(root, ts),
{
    reveal_strlit("web-distributor-old");
    reveal_strlit("web-distributor-old-");
    reveal_strlit("/");
    assert(spec_acme_backup(root).len() == root.len() + 20);
    assert(spec_acme_archive(root, ts).len() == root.len() + 21 + ts.len());
}

/// Law: the proxy-side rotation of one run, at its concrete names, never
/// deletes live content. Whatever lived at `<home>/nginx` is afterwards at
/// `<home>/nginx-old`; whatever was at `<home>/nginx-old` is afterwards at
/// `<home>/nginx-old-<ts>`; every other name in the root is untouched. The
/// only assumption is that the run's timestamped archive name is not taken
/// yet.
pub proof fn lemma_nginx_rotation_no_loss<C>(fs: Map<Seq<char>, C>, home: Seq<char>, ts: Seq<char>)
    requires
        !fs.contains_key(spec_nginx_archive(home, ts)),
    ensures
        ({
            let live = spec_nginx_live(home);
            let backup = spec_nginx_backup(home);
            let archive = spec_nginx_archive(home, ts);
            let r = spec_rotate(fs, live, backup, archive);
            &&& fs.contains_key(live) ==> r.contains_key(backup) && r[backup] == fs[live]
            &&& fs.contains_key(backup) ==> r.contains_key(archive) && r[archive] == fs[backup]
            &&& !r.contains_key(live)
            &&& forall|k: Seq<char>|
                k != live && k != backup && k != archive ==> ((#[trigger] r.contains_key(k)
                    <==> fs.contains_key(k)) && (fs.contains_key(k) ==> r[k] == fs[k]))
        }),
{
    lemma_nginx_names_distinct(home, ts);
    lemma_rotate_preserves(
        fs,
        spec_nginx_live(home),
        spec_nginx_backup(home),
        spec_nginx_archive(home, ts),
    );
}

/// The planned proxy-side renames, applied in their planned order to the
/// output root, are exactly one rotation of the root's live directory.
pub proof fn lemma_webserver_plan_rotates<C>(
    c: ConfigModel,
    ts: Seq<char>,
    fs: Map<Seq<char>, C>,
)
    ensures
        spec_webserver_plan(c, ts)[0] == (FsOpModel::Rename {
            from: spec_nginx_backup(c.home),
            to: spec_nginx_archive(c.home, ts),
            missing_ok: true,
        }),
        spec_webserver_plan(c, ts)[1] == (FsOpModel::Rename {
            from: spec_nginx_live(c.home),
            to: spec_nginx_backup(c.home),
            missing_ok: true,
        }),
        rename_applied(
            rename_applied(fs, spec_nginx_backup(c.home), spec_nginx_archive(c.home, ts)),
            spec_nginx_live(c.home),
            spec_nginx_backup(c.home),
        ) == spec_rotate(
            fs,
            spec_nginx_live(c.home),
            spec_nginx_backup(c.home),
            spec_nginx_archive(c.home, ts),
        ),
{
}

/// The planned certificate-side rotation archives the backup subdirectory:
/// its one rename, applied to the root, is exactly that archiving step.
pub proof fn lemma_acme_plan_archives<C>(root: Seq<char>, ts: Seq<char>, fs: Map<Seq<char>, C>)
    ensures
        spec_acme_rotation_plan(root, ts)[0] == (FsOpModel::Rename {
            from: spec_acme_backup(root),
            to: spec_acme_archive(root, ts),
            missing_ok: true,
        }),
        spec_acme_rotation_plan(root, ts)[1] == (FsOpModel::EnsureDirAll {
            path: spec_acme_backup(root),
        }),
        fs.contains_key(spec_acme_backup(root)) ==> rename_applied(
            fs,
            spec_acme_backup(root),
            spec_acme_archive(root, ts),
        )[spec_acme_archive(root, ts)] == fs[spec_acme_backup(root)],
{
}

} // verus!

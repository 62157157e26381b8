//! The match-and-remediate engine: it classifies processes and file paths
//! against the signature store, decides every remediation action, and keeps
//! the run's append-only log. All host work — enumeration, hashing input,
//! deletion, termination — happens outside; the engine is handed plain
//! values and says exactly what to do and what to record.

use vstd::prelude::*;
use vstd::string::StringExecFns;

use crate::path::base_name;
use crate::path::base_name_of;
use crate::sig::SignatureStore;
use crate::sig::views_of;
use crate::text::dec_str;
use crate::text::lower;
use crate::text::to_lower;
use crate::text::u64_to_string;

verus! {

/// One running process, as a plain snapshot: identifier and name.
pub struct ProcessRecord {
    pub pid: u64,
    pub name: String,
}

/// What the engine asks for next on a scanned file.
#[derive(Clone, Copy, PartialEq, Eq, Structural, Debug)]
pub enum FileStep {
    /// The base filename matched; delete the file, no digest is computed.
    MatchedName,
    /// No name match; compute the content digest and report it back.
    NeedsDigest,
}

/// The dangerous-process log line for a (lowercased) process name.
pub open spec fn dangerous_process_msg(name: Seq<char>) -> Seq<char> {
    "Dangerous process: "@ + name
}

/// The termination log line for a process identifier.
pub open spec fn stopped_msg(pid: u64) -> Seq<char> {
    "Stopped: PID "@ + dec_str(pid as nat)
}

/// The dangerous-file log line for a name-matched path.
pub open spec fn dangerous_file_msg(path: Seq<char>) -> Seq<char> {
    "Dangerous file: "@ + path
}

/// The dangerous-digest log line for a digest-matched path.
pub open spec fn dangerous_hash_msg(path: Seq<char>, digest: Seq<char>) -> Seq<char> {
    "Dangerous hash: "@ + path + " ("@ + digest + ")"@
}

/// The log line recorded after a deletion attempt: success, or failure with
/// the underlying error.
pub open spec fn delete_outcome_msg(path: Seq<char>, error: Option<Seq<char>>) -> Seq<char> {
    match error {
        Option::None => "Deleted: "@ + path,
        Option::Some(e) => "Can't delete "@ + path + ": "@ + e,
    }
}

/// The log line recorded after the persistence-entry cleanup.
pub open spec fn registry_msg(ok: bool) -> Seq<char> {
    if ok {
        "Brontok deleted from the startup."@
    } else {
        "Can't clean the register."@
    }
}

/// Whether a process matches: its name, folded to lowercase, is in the name
/// set. Processes are matched by name alone; digests play no part.
pub open spec fn process_matches(store: SignatureStore, p: ProcessRecord) -> bool {
    store.name_matches(p.name@)
}

/// The identifiers the process scan terminates: one per matching process,
/// in enumeration order.
pub open spec fn process_kills(store: SignatureStore, procs: Seq<ProcessRecord>) -> Seq<u64>
    decreases procs.len(),
{
    if procs.len() == 0 {
        Seq::empty()
    } else if process_matches(store, procs.last()) {
        process_kills(store, procs.drop_last()) + seq![procs.last().pid]
    } else {
        process_kills(store, procs.drop_last())
    }
}

/// The log lines the process scan produces: for each matching process, its
/// dangerous-process line followed by its termination line.
pub open spec fn process_log(store: SignatureStore, procs: Seq<ProcessRecord>) -> Seq<Seq<char>>
    decreases procs.len(),
{
    if procs.len() == 0 {
        Seq::empty()
    } else if process_matches(store, procs.last()) {
        process_log(store, procs.drop_last())
            + seq![dangerous_process_msg(lower(procs.last().name@)), stopped_msg(procs.last().pid)]
    } else {
        process_log(store, procs.drop_last())
    }
}

/// How many of `procs` match the store by name.
pub open spec fn matching_count(store: SignatureStore, procs: Seq<ProcessRecord>) -> nat
    decreases procs.len(),
{
    if procs.len() == 0 {
        0
    } else if process_matches(store, procs.last()) {
        matching_count(store, procs.drop_last()) + 1
    } else {
        matching_count(store, procs.drop_last())
    }
}

/// The digest an unreadable file gets is absent, and an absent digest never
/// matches.
pub open spec fn digest_is_match(store: SignatureStore, digest: Option<Seq<char>>) -> bool {
    match digest {
        Option::Some(d) => store.digest_matches(d),
        Option::None => false,
    }
}

/// The dangerous log entries one scanned file draws: one name-match entry,
/// or one digest-match entry carrying the digest, or none.
pub open spec fn file_dangerous_entries(
    store: SignatureStore,
    path: Seq<char>,
    digest: Option<Seq<char>>,
) -> Seq<Seq<char>> {
    if store.name_matches(base_name(path)) {
        seq![dangerous_file_msg(path)]
    } else if digest_is_match(store, digest) {
        seq![dangerous_hash_msg(path, digest->0)]
    } else {
        Seq::empty()
    }
}

/// How many deletion attempts one scanned file draws.
pub open spec fn file_delete_attempts(
    store: SignatureStore,
    path: Seq<char>,
    digest: Option<Seq<char>>,
) -> nat {
    if store.name_matches(base_name(path)) || digest_is_match(store, digest) {
        1
    } else {
        0
    }
}

/// The engine: the signature store and the run's append-only log. The log
/// models the fixed-path log file; the caller mirrors each new line to the
/// console and the file.
pub struct Engine {
    pub store: SignatureStore,
    pub log: Vec<String>,
}

impl Engine {
    /// The log as a sequence of lines.
    pub open spec fn log_lines(&self) -> Seq<Seq<char>> {
        views_of(self.log@)
    }

    /// A fresh engine over `store`, with an empty log.
    pub fn new(store: SignatureStore) -> (e: Engine)
        ensures
            e.store == store,
            e.log_lines() == Seq::<Seq<char>>::empty(),
    {
        let e = Engine { store, log: Vec::new() };
        proof {
            assert(e.log_lines() =~= Seq::<Seq<char>>::empty());
        }
        e
    }

    /// Appends one line to the log. The log is append-only: no method ever
    /// removes or rewrites a line.
    pub fn record(&mut self, msg: String)
        ensures
            final(self).store == old(self).store,
            final(self).log_lines() == old(self).log_lines().push(msg@),
    {
        let ghost before = self.log@;
        self.log.push(msg);
        proof {
            assert(self.log_lines() =~= views_of(before).push(self.log@.last()@));
        }
    }

    /// Scans a process-table snapshot: for each process whose lowercase name
    /// is in the name set, records its dangerous-process line and its
    /// termination line, and returns the identifiers to terminate — exactly
    /// one termination request per matching process, none for the rest.
    pub fn process_stage(&mut self, procs: &Vec<ProcessRecord>) -> (kills: Vec<u64>)
        ensures
            final(self).store == old(self).store,
            kills@ == process_kills(old(self).store, procs@),
            final(self).log_lines() == old(self).log_lines().push(
                "=== Checking system processes ==="@,
            ) + process_log(old(self).store, procs@),
    {
        self.record(String::from_str("=== Checking system processes ==="));
        let ghost mark = self.log_lines();
        let mut kills: Vec<u64> = Vec::new();
        let mut i: usize = 0;
        while i < procs.len()
            invariant
                i <= procs@.len(),
                self.store == old(self).store,
                kills@ == process_kills(old(self).store, procs@.take(i as int)),
                self.log_lines() == mark + process_log(old(self).store, procs@.take(i as int)),
            decreases procs@.len() - i,
        {
            let p = &procs[i];
            if self.store.contains_name(p.name.as_str()) {
                let lowered = to_lower(p.name.as_str());
                self.record(String::from_str("Dangerous process: ").concat(lowered.as_str()));
                self.record(String::from_str("Stopped: PID ").concat(u64_to_string(p.pid).as_str()));
                kills.push(p.pid);
            }
            proof {
                assert(procs@.take(i + 1).drop_last() =~= procs@.take(i as int));
                assert(procs@.take(i + 1).last() == procs@[i as int]);
                assert(kills@ =~= process_kills(old(self).store, procs@.take(i + 1)));
                assert(self.log_lines() =~= mark + process_log(old(self).store, procs@.take(i + 1)));
            }
            i = i + 1;
        }
        proof {
            assert(procs@.take(procs@.len() as int) =~= procs@);
        }
        kills
    }

    /// Classifies a scanned path by its base filename. On a name match it
    /// records the dangerous-file line and asks for deletion; otherwise it
    /// records nothing and asks for the content digest — the cheap name test
    /// always comes before any digest work.
    pub fn begin_file(&mut self, path: &String) -> (step: FileStep)
        ensures
            final(self).store == old(self).store,
            (step == FileStep::MatchedName) == old(self).store.name_matches(base_name(path@)),
            step == FileStep::MatchedName ==> final(self).log_lines() == old(self).log_lines().push(
                dangerous_file_msg(path@),
            ),
            step == FileStep::NeedsDigest ==> *final(self) == *old(self),
    {
        let base = base_name_of(path.as_str());
        if self.store.contains_name(base.as_str()) {
            self.record(String::from_str("Dangerous file: ").concat(path.as_str()));
            FileStep::MatchedName
        } else {
            FileStep::NeedsDigest
        }
    }

    /// Judges the digest computed for a file the name test let through: an
    /// absent digest (an unreadable file) never matches; a listed digest
    /// draws the dangerous-digest line, which carries the digest value, and
    /// asks for deletion.
    pub fn file_digest(&mut self, path: &String, digest: &Option<String>) -> (dangerous: bool)
        ensures
            final(self).store == old(self).store,
            dangerous == digest_is_match(old(self).store, opt_lines(*digest)),
            dangerous ==> final(self).log_lines() == old(self).log_lines().push(
                dangerous_hash_msg(path@, opt_lines(*digest)->0),
            ),
            !dangerous ==> *final(self) == *old(self),
    {
        match digest {
            Option::Some(d) => {
                if self.store.contains_digest(d.as_str()) {
                    let msg = String::from_str("Dangerous hash: ")
                        .concat(path.as_str())
                        .concat(" (")
                        .concat(d.as_str())
                        .concat(")");
                    proof {
                        assert(msg@ =~= dangerous_hash_msg(path@, d@));
                    }
                    self.record(msg);
                    true
                } else {
                    false
                }
            },
            Option::None => false,
        }
    }

    /// Records the outcome of one deletion attempt: the success line, or the
    /// failure line naming the error. Either way exactly one line.
    pub fn record_delete_outcome(&mut self, path: &String, error: &Option<String>)
        ensures
            final(self).store == old(self).store,
            final(self).log_lines() == old(self).log_lines().push(
                delete_outcome_msg(path@, opt_lines(*error)),
            ),
    {
        match error {
            Option::None => {
                self.record(String::from_str("Deleted: ").concat(path.as_str()));
            },
            Option::Some(e) => {
                let msg = String::from_str("Can't delete ")
                    .concat(path.as_str())
                    .concat(": ")
                    .concat(e.as_str());
                proof {
                    assert(msg@ =~= delete_outcome_msg(path@, opt_lines(*error)));
                }
                self.record(msg);
            },
        }
    }

    /// Records the outcome of the persistence-entry cleanup.
    pub fn record_registry_outcome(&mut self, ok: bool)
        ensures
            final(self).store == old(self).store,
            final(self).log_lines() == old(self).log_lines().push(registry_msg(ok)),
    {
        if ok {
            self.record(String::from_str("Brontok deleted from the startup."));
        } else {
            self.record(String::from_str("Can't clean the register."));
        }
    }
}

/// The views of an optional string.
pub open spec fn opt_lines(s: Option<String>) -> Option<Seq<char>> {
    match s {
        Option::Some(x) => Option::Some(x@),
        Option::None => Option::None,
    }
}

/// A name-matched file draws exactly one dangerous entry and exactly one
/// deletion attempt, and its digest plays no part: any two digest values —
/// absent included — give the same entries and the same attempt count.
pub proof fn law_name_match_remediation(
    store: SignatureStore,
    path: Seq<char>,
    d1: Option<Seq<char>>,
    d2: Option<Seq<char>>,
)
    requires
        store.name_matches(base_name(path)),
    ensures
        file_dangerous_entries(store, path, d1) =~= seq![dangerous_file_msg(path)],
        file_delete_attempts(store, path, d1) == 1,
        file_dangerous_entries(store, path, d1) == file_dangerous_entries(store, path, d2),
        file_delete_attempts(store, path, d1) == file_delete_attempts(store, path, d2),
{
}

/// A file the name test lets through whose digest is listed draws exactly
/// one dangerous entry — carrying the digest value — and one deletion
/// attempt.
pub proof fn law_digest_match_remediation(store: SignatureStore, path: Seq<char>, d: Seq<char>)
    requires
        !store.name_matches(base_name(path)),
        store.digest_matches(d),
    ensures
        file_dangerous_entries(store, path, Option::Some(d)) =~= seq![dangerous_hash_msg(path, d)],
        file_delete_attempts(store, path, Option::Some(d)) == 1,
{
}

/// A file matching neither test draws no dangerous entry and no deletion
/// attempt.
pub proof fn law_clean_file_untouched(store: SignatureStore, path: Seq<char>, d: Option<Seq<char>>)
    requires
        !store.name_matches(base_name(path)),
        !digest_is_match(store, d),
    ensures
        file_dangerous_entries(store, path, d) =~= Seq::<Seq<char>>::empty(),
        file_delete_attempts(store, path, d) == 0,
{
}

/// Exactly one termination request, and exactly two log lines, per matching
/// process: none for the rest.
pub proof fn law_one_kill_per_match(store: SignatureStore, procs: Seq<ProcessRecord>)
    ensures
        process_kills(store, procs).len() == matching_count(store, procs),
        process_log(store, procs).len() == 2 * matching_count(store, procs),
    decreases procs.len(),
{
    if procs.len() > 0 {
        law_one_kill_per_match(store, procs.drop_last());
    }
}

/// The termination list is exactly the matching processes, in enumeration
/// order, each contributing its identifier once — and no other process
/// contributes anything.
pub proof fn law_kills_are_matching_pids(store: SignatureStore, procs: Seq<ProcessRecord>)
    ensures
        process_kills(store, procs) =~= procs.filter(
            |p: ProcessRecord| process_matches(store, p),
        ).map_values(|p: ProcessRecord| p.pid),
    decreases procs.len(),
{
    reveal_with_fuel(Seq::filter, 2);
    if procs.len() > 0 {
        law_kills_are_matching_pids(store, procs.drop_last());
        let pred = |p: ProcessRecord| process_matches(store, p);
        if pred(procs.last()) {
            assert(procs.filter(pred).map_values(|p: ProcessRecord| p.pid) =~= procs.drop_last()
                .filter(pred).map_values(|p: ProcessRecord| p.pid).push(procs.last().pid));
        }
    }
}

/// Processes are matched by the name set alone: two stores with the same
/// names but any digest sets decide the same terminations and the same log.
pub proof fn law_processes_ignore_digests(
    a: SignatureStore,
    b: SignatureStore,
    procs: Seq<ProcessRecord>,
)
    requires
        a.names_lowered() == b.names_lowered(),
    ensures
        process_kills(a, procs) == process_kills(b, procs),
        process_log(a, procs) == process_log(b, procs),
    decreases procs.len(),
{
    if procs.len() > 0 {
        law_processes_ignore_digests(a, b, procs.drop_last());
    }
}

/// Idempotence of the process scan: over a process table already cleared of
/// matches, a re-run requests no termination and logs no process line.
pub proof fn law_rescan_clean_processes(store: SignatureStore, procs: Seq<ProcessRecord>)
    requires
        forall|i: int| 0 <= i < procs.len() ==> !process_matches(store, #[trigger] procs[i]),
    ensures
        process_kills(store, procs) =~= Seq::<u64>::empty(),
        process_log(store, procs) =~= Seq::<Seq<char>>::empty(),
    decreases procs.len(),
{
    if procs.len() > 0 {
        law_rescan_clean_processes(store, procs.drop_last());
    }
}

/// The deletion attempts a whole file scan makes: the sum over its files,
/// each given with the digest it would present.
pub open spec fn scan_delete_attempts(
    store: SignatureStore,
    files: Seq<(Seq<char>, Option<Seq<char>>)>,
) -> nat
    decreases files.len(),
{
    if files.len() == 0 {
        0
    } else {
        scan_delete_attempts(store, files.drop_last()) + file_delete_attempts(
            store,
            files.last().0,
            files.last().1,
        )
    }
}

/// Idempotence of the file scan: over a tree already cleared of all
/// signature matches — no remaining file matches by name or by digest — a
/// re-run attempts zero deletions.
pub proof fn law_rescan_clean_tree(store: SignatureStore, files: Seq<(Seq<char>, Option<Seq<char>>)>)
    requires
        forall|i: int| 0 <= i < files.len() ==> !store.name_matches(
            base_name((#[trigger] files[i]).0),
        ) && !digest_is_match(store, files[i].1),
    ensures
        scan_delete_attempts(store, files) == 0,
    decreases files.len(),
{
    if files.len() > 0 {
        law_rescan_clean_tree(store, files.drop_last());
    }
}

} // verus!

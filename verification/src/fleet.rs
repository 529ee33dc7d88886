//! The fleet supervisor's task table.
//!
//! The supervisor scans the repositories over and over. For each one it
//! finds, the table says whether a monitor loop is on record. A loop on
//! record is struck off once it is seen to have finished; a repository with
//! no loop on record gets one if it is indexable. The table hands out a
//! ticket for every loop it has the caller spawn, and the caller keeps the
//! loop's handle under that ticket.

use vstd::prelude::*;

verus! {

/// `scc::HashMap`, a hash map that may be shared between threads. Nothing
/// inside it is visible here: what it holds is known through [`tickets_of`]
/// alone.
#[verifier::external_type_specification]
#[verifier::external_body]
#[verifier::reject_recursive_types(K)]
#[verifier::reject_recursive_types(V)]
#[verifier::reject_recursive_types(H)]
pub struct ExConcurrentHashMap<K, V, H: std::hash::BuildHasher>(scc::HashMap<K, V, H>);

/// The entries of a concurrent hash map that records tickets under the
/// names of repositories: which names it holds, and the ticket under each.
pub uninterp spec fn tickets_of(map: scc::HashMap<String, u64>) -> Map<Seq<char>, u64>;

/// `scc::HashMap::new`, which creates an empty map.
#[verifier::external_body]
fn map_new() -> (created: scc::HashMap<String, u64>)
    ensures
        tickets_of(created) =~= Map::empty(),
{
    scc::HashMap::new()
}

/// `scc::HashMap::read` with a reader that copies the value out. The method
/// looks the key up and returns `None` if the map does not hold it, and
/// what the reader makes of the entry if it does.
#[verifier::external_body]
fn map_read(map: &scc::HashMap<String, u64>, key: &str) -> (found: Option<u64>)
    ensures
        found == if tickets_of(*map).contains_key(key@) {
            Some(tickets_of(*map)[key@])
        } else {
            None
        },
{
    map.read(key, |_, ticket| *ticket)
}

/// `scc::HashMap::insert`, which adds the pair if the map does not hold the
/// key, and otherwise leaves the map as it is and hands the pair back.
#[verifier::external_body]
fn map_insert(map: &mut scc::HashMap<String, u64>, key: String, ticket: u64)
    ensures
        tickets_of(*final(map)) == if tickets_of(*old(map)).contains_key(key@) {
            tickets_of(*old(map))
        } else {
            tickets_of(*old(map)).insert(key@, ticket)
        },
{
    let _ = map.insert(key, ticket);
}

/// `scc::HashMap::remove`, which takes the key's entry out of the map if
/// there is one.
#[verifier::external_body]
fn map_remove(map: &mut scc::HashMap<String, u64>, key: &str)
    ensures
        tickets_of(*final(map)) == tickets_of(*old(map)).remove(key@),
{
    let _ = map.remove(key);
}

/// Seconds between two scans of the repository pool.
pub const SCAN_PERIOD_SECS: u64 = 5;

/// Milliseconds between two looks for credentials before the first scan:
/// the supervisor does not scan while there are none.
pub const STARTUP_POLL_MILLIS: u64 = 100;

/// What the supervisor does before its first scan.
#[derive(Clone, Copy, Debug, PartialEq, Eq, Structural)]
pub enum Startup {
    /// Credentials exist: start scanning.
    Scan,
    /// There are none yet: sleep for `millis` milliseconds and look again.
    Pause { millis: u64 },
}

/// The supervisor's first scan waits for credentials: without them it
/// pauses, with them it scans.
pub open spec fn startup_step(credentials_present: bool) -> Startup {
    if credentials_present {
        Startup::Scan
    } else {
        Startup::Pause { millis: STARTUP_POLL_MILLIS }
    }
}

/// Decides whether the supervisor may start scanning.
pub fn startup_gate(credentials_present: bool) -> (step: Startup)
    ensures
        step == startup_step(credentials_present),
{
    if credentials_present {
        Startup::Scan
    } else {
        Startup::Pause { millis: STARTUP_POLL_MILLIS }
    }
}

/// What the table has the supervisor do about one repository.
#[derive(Clone, Copy, Debug, PartialEq, Eq, Structural)]
pub enum ScanAction {
    /// Spawn a monitor loop and keep its handle under this ticket.
    Spawn(u64),
    /// The loop with this ticket has finished and is off the record: drop
    /// its handle.
    Reap(u64),
    /// Leave things as they are.
    Nothing,
}

/// The content of a task table.
pub struct FleetView {
    /// The ticket of the loop on record for each repository that has one.
    pub entries: Map<Seq<char>, u64>,
    /// How many tickets have been handed out; the next ticket's number.
    pub issued: nat,
}

impl FleetView {
    /// Tickets on record have been handed out, and no ticket is on record
    /// for two repositories.
    pub open spec fn wf(self) -> bool {
        &&& forall|repo: Seq<char>| #[trigger]
            self.entries.contains_key(repo) ==> self.entries[repo] < self.issued
        &&& forall|a: Seq<char>, b: Seq<char>|
            self.entries.contains_key(a) && self.entries.contains_key(b) && #[trigger] self.entries[a]
                == #[trigger] self.entries[b] ==> a == b
    }

    /// The table before the first scan.
    pub open spec fn empty() -> FleetView {
        FleetView { entries: Map::empty(), issued: 0 }
    }

    /// The table after the scan of one repository, and what the supervisor
    /// is to do. `finished` is read only if a loop is on record, and
    /// `indexable` only if none is. The last ticket is never handed out.
    pub open spec fn scanned(self, repo: Seq<char>, indexable: bool, finished: bool) -> (
        FleetView,
        ScanAction,
    ) {
        if self.entries.contains_key(repo) {
            if finished {
                (
                    FleetView { entries: self.entries.remove(repo), ..self },
                    ScanAction::Reap(self.entries[repo]),
                )
            } else {
                (self, ScanAction::Nothing)
            }
        } else if indexable && self.issued < u64::MAX {
            (
                FleetView {
                    entries: self.entries.insert(repo, self.issued as u64),
                    issued: self.issued + 1,
                },
                ScanAction::Spawn(self.issued as u64),
            )
        } else {
            (self, ScanAction::Nothing)
        }
    }
}

/// The fleet supervisor's task table.
pub struct FleetTable {
    tasks: scc::HashMap<String, u64>,
    issued: u64,
}

impl View for FleetTable {
    type V = FleetView;

    closed spec fn view(&self) -> FleetView {
        FleetView { entries: tickets_of(self.tasks), issued: self.issued as nat }
    }
}

impl FleetTable {
    /// A table with no loop on record and no ticket handed out.
    pub fn new() -> (table: FleetTable)
        ensures
            table@ == FleetView::empty(),
    {
        FleetTable { tasks: map_new(), issued: 0 }
    }

    /// The ticket of the loop on record for `repo`, if there is one.
    pub fn ticket(&self, repo: &str) -> (ticket: Option<u64>)
        ensures
            ticket == if self@.entries.contains_key(repo@) {
                Some(self@.entries[repo@])
            } else {
                None
            },
    {
        map_read(&self.tasks, repo)
    }

    /// How many tickets the table has handed out.
    pub fn issued(&self) -> (issued: u64)
        ensures
            issued == self@.issued,
    {
        self.issued
    }

    /// Scans one repository. `indexable` says whether the repository is
    /// indexable, and `finished` whether the loop on record for it, if there
    /// is one, has finished. The table is borrowed exclusively for the whole
    /// scan, so nothing comes between the look for a loop on record and the
    /// change that follows it.
    pub fn scan_entry(&mut self, repo: &str, indexable: bool, finished: bool) -> (action:
        ScanAction)
        ensures
            (final(self)@, action) == old(self)@.scanned(repo@, indexable, finished),
    {
        match map_read(&self.tasks, repo) {
            Some(ticket) => {
                if finished {
                    map_remove(&mut self.tasks, repo);
                    ScanAction::Reap(ticket)
                } else {
                    ScanAction::Nothing
                }
            },
            None => {
                if indexable && self.issued < u64::MAX {
                    let ticket = self.issued;
                    self.issued = ticket + 1;
                    map_insert(&mut self.tasks, repo.to_owned(), ticket);
                    ScanAction::Spawn(ticket)
                } else {
                    ScanAction::Nothing
                }
            },
        }
    }
}

/// A fleet: the task table together with the monitor loops that are running.
pub struct Fleet {
    /// The supervisor's task table.
    pub table: FleetView,
    /// The tickets of the loops that are running.
    pub live: Set<u64>,
    /// The repository that each ticket was handed out for.
    pub owner: Map<u64, Seq<char>>,
}

/// What can happen to a fleet.
pub enum FleetStep {
    /// The supervisor scans one repository; `finished` is what the
    /// supervisor saw of the loop on record.
    Scan { repo: Seq<char>, indexable: bool, finished: bool },
    /// The loop with this ticket comes to its end.
    Exit { ticket: u64 },
}

impl Fleet {
    /// The fleet before the first scan: nothing on record, nothing running.
    pub open spec fn initial() -> Fleet {
        Fleet { table: FleetView::empty(), live: Set::empty(), owner: Map::empty() }
    }

    /// The table is well formed, and every running loop is the one on
    /// record for its repository.
    pub open spec fn inv(self) -> bool {
        &&& self.table.wf()
        &&& forall|ticket: u64| #[trigger]
            self.live.contains(ticket) ==> {
                &&& self.owner.contains_key(ticket)
                &&& self.table.entries.contains_key(self.owner[ticket])
                &&& self.table.entries[self.owner[ticket]] == ticket
            }
    }

    /// Whether `step` can happen: a scan sees a loop as finished only if it
    /// is not running.
    pub open spec fn admits(self, step: FleetStep) -> bool {
        match step {
            FleetStep::Scan { repo, indexable, finished } => finished
                && self.table.entries.contains_key(repo) ==> !self.live.contains(
                self.table.entries[repo],
            ),
            FleetStep::Exit { ticket } => true,
        }
    }

    /// The fleet after `step`. A scan changes the table as
    /// [`FleetView::scanned`] says, and a loop that it has spawned runs.
    pub open spec fn after(self, step: FleetStep) -> Fleet {
        match step {
            FleetStep::Scan { repo, indexable, finished } => {
                let (table, action) = self.table.scanned(repo, indexable, finished);
                match action {
                    ScanAction::Spawn(ticket) => Fleet {
                        table,
                        live: self.live.insert(ticket),
                        owner: self.owner.insert(ticket, repo),
                    },
                    _ => Fleet { table, ..self },
                }
            },
            FleetStep::Exit { ticket } => Fleet { live: self.live.remove(ticket), ..self },
        }
    }

    /// Whether `steps` can happen one after the other.
    pub open spec fn admits_all(self, steps: Seq<FleetStep>) -> bool
        decreases steps.len(),
    {
        steps.len() > 0 ==> self.admits(steps[0]) && self.after(steps[0]).admits_all(steps.skip(1))
    }

    /// The fleet after `steps`.
    pub open spec fn after_all(self, steps: Seq<FleetStep>) -> Fleet
        decreases steps.len(),
    {
        if steps.len() == 0 {
            self
        } else {
            self.after(steps[0]).after_all(steps.skip(1))
        }
    }

    /// Whether the loop with this ticket runs for `repo`.
    pub open spec fn runs_for(self, ticket: u64, repo: Seq<char>) -> bool {
        self.live.contains(ticket) && self.owner.contains_key(ticket) && self.owner[ticket] == repo
    }
}

/// The empty table is well formed, and so is the fleet before the first scan.
pub proof fn lemma_initial_fleet_is_sound()
    ensures
        FleetView::empty().wf(),
        Fleet::initial().inv(),
{
}

/// A scan keeps a well-formed table well formed. Every table starts out
/// empty and changes by scans alone, so every table is well formed.
pub proof fn lemma_scan_keeps_table_wf(
    table: FleetView,
    repo: Seq<char>,
    indexable: bool,
    finished: bool,
)
    requires
        table.wf(),
    ensures
        table.scanned(repo, indexable, finished).0.wf(),
{
}

/// A scan spawns a loop only for an indexable repository that has none on
/// record, and strikes a loop off the record only when it has finished.
pub proof fn lemma_scan_decision(table: FleetView, repo: Seq<char>, indexable: bool, finished: bool)
    ensures
        ({
            let (next, action) = table.scanned(repo, indexable, finished);
            &&& action is Spawn <==> !table.entries.contains_key(repo) && indexable && table.issued
                < u64::MAX
            &&& action is Reap <==> table.entries.contains_key(repo) && finished
            &&& action matches ScanAction::Spawn(ticket) ==> next.entries.contains_key(repo)
                && next.entries[repo] == ticket && ticket == table.issued
            &&& action matches ScanAction::Reap(ticket) ==> !next.entries.contains_key(repo)
                && table.entries[repo] == ticket
            &&& action is Nothing ==> next == table
        }),
{
}

/// Every step that can happen keeps the invariant of the fleet.
pub proof fn lemma_step_keeps_inv(fleet: Fleet, step: FleetStep)
    requires
        fleet.inv(),
        fleet.admits(step),
    ensures
        fleet.after(step).inv(),
{
    let next = fleet.after(step);
    match step {
        FleetStep::Scan { repo, indexable, finished } => {
            let (table, action) = fleet.table.scanned(repo, indexable, finished);
            assert forall|ticket: u64| #[trigger] next.live.contains(ticket) implies {
                &&& next.owner.contains_key(ticket)
                &&& next.table.entries.contains_key(next.owner[ticket])
                &&& next.table.entries[next.owner[ticket]] == ticket
            } by {
                if fleet.live.contains(ticket) {
                    assert(fleet.table.entries.contains_key(fleet.owner[ticket]));
                }
            }
        },
        FleetStep::Exit { ticket } => {},
    }
}

/// At most one monitor loop runs for a repository: in a fleet that keeps
/// its invariant, two running loops of one repository are the same loop.
pub proof fn lemma_at_most_one_live_loop(fleet: Fleet, repo: Seq<char>, a: u64, b: u64)
    requires
        fleet.inv(),
        fleet.runs_for(a, repo),
        fleet.runs_for(b, repo),
    ensures
        a == b,
{
}

/// Whatever the supervisor scans and whichever loops end, in whatever order,
/// the fleet keeps its invariant, so that at no point two loops run for one
/// repository.
pub proof fn lemma_fleet_never_doubles(steps: Seq<FleetStep>)
    requires
        Fleet::initial().admits_all(steps),
    ensures
        Fleet::initial().after_all(steps).inv(),
        forall|repo: Seq<char>, a: u64, b: u64|
            #![trigger Fleet::initial().after_all(steps).runs_for(a, repo), Fleet::initial().after_all(steps).runs_for(b, repo)]
            Fleet::initial().after_all(steps).runs_for(a, repo) && Fleet::initial().after_all(
                steps,
            ).runs_for(b, repo) ==> a == b,
{
    lemma_steps_keep_inv(Fleet::initial(), steps);
}

/// Steps that can happen one after the other keep the invariant.
proof fn lemma_steps_keep_inv(fleet: Fleet, steps: Seq<FleetStep>)
    requires
        fleet.inv(),
        fleet.admits_all(steps),
    ensures
        fleet.after_all(steps).inv(),
    decreases steps.len(),
{
    if steps.len() > 0 {
        lemma_step_keeps_inv(fleet, steps[0]);
        lemma_steps_keep_inv(fleet.after(steps[0]), steps.skip(1));
    }
}

} // verus!

//! The entries of the secrets file, how one of them is selected, and the
//! cached snapshot that is replaced when the file changes.

use crate::error::Error;
use vstd::prelude::*;
use vstd::string::StringExecFns;

verus! {

/// One named secret with the parameters of its codes.
#[derive(Debug)]
pub struct ConfigEntry {
    /// The label shown to people.
    pub name: String,
    /// A short alias by which the entry can be selected; may be empty.
    pub handle: String,
    /// The key material in Base32.
    pub secret: String,
    /// The length of a time window in seconds.
    pub timestep: u16,
    /// The number of digits of a code.
    pub digits: u8,
}

/// What an entry holds.
pub struct ConfigEntryView {
    pub name: Seq<char>,
    pub handle: Seq<char>,
    pub secret: Seq<char>,
    pub timestep: u16,
    pub digits: u8,
}

impl View for ConfigEntry {
    type V = ConfigEntryView;

    open spec fn view(&self) -> ConfigEntryView {
        ConfigEntryView {
            name: self.name@,
            handle: self.handle@,
            secret: self.secret@,
            timestep: self.timestep,
            digits: self.digits,
        }
    }
}

impl ConfigEntryView {
    /// An entry is usable when its time step is positive and its digit count
    /// is between one and nine.
    pub open spec fn valid(self) -> bool {
        self.timestep > 0 && 1 <= self.digits <= 9
    }
}

impl Clone for ConfigEntry {
    fn clone(&self) -> (copy: Self)
        ensures
            copy == *self,
    {
        ConfigEntry {
            name: self.name.clone(),
            handle: self.handle.clone(),
            secret: self.secret.clone(),
            timestep: self.timestep,
            digits: self.digits,
        }
    }
}

/// The digit count of an entry that names none.
pub fn default_digits() -> (digits: u8)
    ensures
        digits == 6,
{
    6
}

/// The handle of an entry that names none.
pub fn empty_string() -> (text: String)
    ensures
        text@ == Seq::<char>::empty(),
{
    String::new()
}

/// The time step of an entry that names none.
pub fn default_step() -> (seconds: u16)
    ensures
        seconds == 30,
{
    30
}

impl ConfigEntry {
    /// An entry with the given name and secret, no handle, a time step of 30
    /// seconds and six digits.
    pub fn new(name: String, secret: String) -> (entry: Self)
        ensures
            entry@ == (ConfigEntryView {
                name: name@,
                handle: Seq::<char>::empty(),
                secret: secret@,
                timestep: 30,
                digits: 6,
            }),
            entry@.valid(),
    {
        ConfigEntry {
            name,
            handle: empty_string(),
            secret,
            timestep: default_step(),
            digits: default_digits(),
        }
    }

    /// Whether the entry's time step and digit count are usable.
    pub fn is_valid(&self) -> (answer: bool)
        ensures
            answer == self@.valid(),
    {
        self.timestep > 0 && 1 <= self.digits && self.digits <= 9
    }
}

/// Whether every entry of a list is usable.
pub open spec fn entries_valid(entries: Seq<ConfigEntry>) -> bool {
    forall|i: int| 0 <= i < entries.len() ==> (#[trigger] entries[i])@.valid()
}

/// Whether position `i` holds the first entry that is not usable.
pub open spec fn is_first_invalid(entries: Seq<ConfigEntry>, i: int) -> bool {
    &&& 0 <= i < entries.len()
    &&& !entries[i]@.valid()
    &&& forall|j: int| 0 <= j < i ==> (#[trigger] entries[j])@.valid()
}

/// The position of the first entry that is not usable, if there is one.
pub open spec fn first_invalid(entries: Seq<ConfigEntry>) -> Option<int> {
    if exists|i: int| is_first_invalid(entries, i) {
        Some(choose|i: int| is_first_invalid(entries, i))
    } else {
        None
    }
}

/// Why the entry at `position` is rejected.
pub open spec fn invalid_detail(position: int) -> Seq<char> {
    "entry "@ + crate::text::decimal_text(position as nat)
        + ": the time step must be positive and the digits between 1 and 9"@
}

/// A list of entries has an unusable entry exactly when it has a first one,
/// and all entries are usable exactly when it has none.
pub proof fn lemma_first_invalid(entries: Seq<ConfigEntry>)
    ensures
        first_invalid(entries) matches Some(i) ==> is_first_invalid(entries, i),
        first_invalid(entries) is None <==> entries_valid(entries),
    decreases entries.len(),
{
    if exists|i: int| 0 <= i < entries.len() && !(#[trigger] entries[i])@.valid() {
        let bad = choose|i: int| 0 <= i < entries.len() && !(#[trigger] entries[i])@.valid();
        lemma_has_first_invalid(entries, bad);
    }
}

/// Below or at every unusable entry stands a first unusable entry.
proof fn lemma_has_first_invalid(entries: Seq<ConfigEntry>, bad: int)
    requires
        0 <= bad < entries.len(),
        !entries[bad]@.valid(),
    ensures
        exists|i: int| is_first_invalid(entries, i),
    decreases bad,
{
    if exists|j: int| 0 <= j < bad && !(#[trigger] entries[j])@.valid() {
        let earlier = choose|j: int| 0 <= j < bad && !(#[trigger] entries[j])@.valid();
        lemma_has_first_invalid(entries, earlier);
    } else {
        assert(is_first_invalid(entries, bad));
    }
}

/// Checks every entry of a parsed file. The list is handed back unchanged
/// where all entries are usable; otherwise the file is rejected as malformed,
/// naming the first entry that is not usable.
pub fn validate_entries(entries: Vec<ConfigEntry>) -> (result: Result<Vec<ConfigEntry>, Error>)
    ensures
        match first_invalid(entries@) {
            None => result == Ok::<Vec<ConfigEntry>, Error>(entries),
            Some(i) => result matches Err(Error::ConfigParse(detail)) && detail@ == invalid_detail(
                i,
            ),
        },
{
    let mut i: usize = 0;
    while i < entries.len()
        invariant
            i <= entries@.len(),
            forall|j: int| 0 <= j < i ==> (#[trigger] entries@[j])@.valid(),
        decreases entries@.len() - i,
    {
        if !entries[i].is_valid() {
            let mut detail = crate::text::join_text("entry ", crate::text::decimal(i as u64).as_str());
            detail.append(": the time step must be positive and the digits between 1 and 9");
            proof {
                assert(is_first_invalid(entries@, i as int));
                let chosen = choose|k: int| is_first_invalid(entries@, k);
                if chosen < i {
                    assert(entries@[chosen]@.valid());
                } else if i < chosen {
                    assert(entries@[i as int]@.valid());
                }
            }
            return Err(Error::ConfigParse(detail));
        }
        i = i + 1;
    }
    proof {
        if exists|k: int| is_first_invalid(entries@, k) {
            let k = choose|k: int| is_first_invalid(entries@, k);
            assert(entries@[k]@.valid());
        }
    }
    Ok(entries)
}

/// What an entry shows to the outside: everything but the secret.
#[derive(Debug)]
pub struct ConfigEntryPublic<'a> {
    pub name: &'a str,
    pub code: &'a str,
    pub timestep: u16,
    pub digits: u8,
}

/// What a shown entry holds.
pub struct ConfigEntryPublicView {
    pub name: Seq<char>,
    pub code: Seq<char>,
    pub timestep: u16,
    pub digits: u8,
}

impl<'a> View for ConfigEntryPublic<'a> {
    type V = ConfigEntryPublicView;

    open spec fn view(&self) -> ConfigEntryPublicView {
        ConfigEntryPublicView {
            name: self.name@,
            code: self.code@,
            timestep: self.timestep,
            digits: self.digits,
        }
    }
}

impl ConfigEntryView {
    /// The entry without its secret; the handle is shown as `code`.
    pub open spec fn shown(self) -> ConfigEntryPublicView {
        ConfigEntryPublicView {
            name: self.name,
            code: self.handle,
            timestep: self.timestep,
            digits: self.digits,
        }
    }
}

impl<'a> ConfigEntryPublic<'a> {
    /// The public form of an entry.
    pub fn from(entry: &'a ConfigEntry) -> (shown: Self)
        ensures
            shown@ == entry@.shown(),
    {
        ConfigEntryPublic {
            name: entry.name.as_str(),
            code: entry.handle.as_str(),
            timestep: entry.timestep,
            digits: entry.digits,
        }
    }
}

/// Whether position `i` holds the first entry whose handle is `handle`.
pub open spec fn is_first_with_handle(entries: Seq<ConfigEntry>, handle: Seq<char>, i: int) -> bool {
    &&& 0 <= i < entries.len()
    &&& entries[i].handle@ == handle
    &&& forall|j: int| 0 <= j < i ==> (#[trigger] entries[j]).handle@ != handle
}

/// Whether some entry has the handle `handle`.
pub open spec fn has_handle(entries: Seq<ConfigEntry>, handle: Seq<char>) -> bool {
    exists|i: int| 0 <= i < entries.len() && (#[trigger] entries[i]).handle@ == handle
}

/// The position that a selector picks: the selector read as an index where
/// it writes one, and that position only; otherwise the first entry whose
/// handle is the selector.
pub open spec fn selected(entries: Seq<ConfigEntry>, selector: Seq<char>) -> Option<int> {
    match crate::text::parsed_index(selector) {
        Some(index) => if index < entries.len() {
            Some(index as int)
        } else {
            None
        },
        None => if has_handle(entries, selector) {
            Some(choose|i: int| is_first_with_handle(entries, selector, i))
        } else {
            None
        },
    }
}

/// At most one position holds the first entry with a given handle.
pub proof fn lemma_first_with_handle_unique(
    entries: Seq<ConfigEntry>,
    handle: Seq<char>,
    i: int,
    j: int,
)
    requires
        is_first_with_handle(entries, handle, i),
        is_first_with_handle(entries, handle, j),
    ensures
        i == j,
{
    if i < j {
        assert(entries[i].handle@ != handle);
    } else if j < i {
        assert(entries[j].handle@ != handle);
    }
}

/// A copy of a list of entries.
pub fn clone_entries(entries: &Vec<ConfigEntry>) -> (copy: Vec<ConfigEntry>)
    ensures
        copy@ == entries@,
{
    let mut copy: Vec<ConfigEntry> = Vec::new();
    let mut i: usize = 0;
    while i < entries.len()
        invariant
            i <= entries@.len(),
            copy@ == entries@.take(i as int),
        decreases entries@.len() - i,
    {
        copy.push(entries[i].clone());
        i = i + 1;
        assert(copy@ =~= entries@.take(i as int));
    }
    assert(entries@.take(entries@.len() as int) =~= entries@);
    copy
}

/// A snapshot of the secrets file: the entries as a whole, with the
/// modification time of the file they were read from, in nanoseconds since the
/// Unix epoch.
pub struct Snapshot {
    pub entries: Seq<ConfigEntry>,
    pub stamp: u128,
}

impl Snapshot {
    /// Whether a file modified at `file_modified` is newer than this snapshot.
    pub open spec fn newer(self, file_modified: u128) -> bool {
        self.stamp < file_modified
    }

    /// The snapshot after a candidate is offered together with the
    /// modification time that the offering caller saw: the candidate where
    /// the file is newer, else this snapshot.
    pub open spec fn install(self, candidate: Seq<ConfigEntry>, file_modified: u128) -> Snapshot {
        if self.newer(file_modified) {
            Snapshot { entries: candidate, stamp: file_modified }
        } else {
            self
        }
    }

    /// The snapshot after callers offer their candidates one after another.
    pub open spec fn install_all(self, offers: Seq<(Seq<ConfigEntry>, u128)>) -> Snapshot
        decreases offers.len(),
    {
        if offers.len() == 0 {
            self
        } else {
            self.install(offers[0].0, offers[0].1).install_all(offers.drop_first())
        }
    }

    /// How many of the offered candidates are installed.
    pub open spec fn installs(self, offers: Seq<(Seq<ConfigEntry>, u128)>) -> nat
        decreases offers.len(),
    {
        if offers.len() == 0 {
            0
        } else {
            (if self.newer(offers[0].1) {
                1nat
            } else {
                0nat
            }) + self.install(offers[0].0, offers[0].1).installs(offers.drop_first())
        }
    }
}

/// Against a file that is not newer nothing is installed: every offer leaves
/// the snapshot as it is, so every caller is served the same entries.
pub proof fn lemma_unchanged_file_keeps_snapshot(
    snapshot: Snapshot,
    offers: Seq<(Seq<ConfigEntry>, u128)>,
)
    requires
        forall|i: int| 0 <= i < offers.len() ==> !snapshot.newer((#[trigger] offers[i]).1),
    ensures
        snapshot.install_all(offers) == snapshot,
        snapshot.installs(offers) == 0,
    decreases offers.len(),
{
    if offers.len() > 0 {
        assert(!snapshot.newer(offers[0].1));
        assert forall|i: int| 0 <= i < offers.drop_first().len() implies !snapshot.newer(
            (#[trigger] offers.drop_first()[i]).1,
        ) by {
            assert(offers.drop_first()[i] == offers[i + 1]);
        }
        lemma_unchanged_file_keeps_snapshot(snapshot, offers.drop_first());
    }
}

/// After one change of the file, however many callers offer what they read,
/// exactly one candidate is installed: the first one offered. Every caller
/// is then served those entries.
pub proof fn lemma_one_install_per_change(
    snapshot: Snapshot,
    offers: Seq<(Seq<ConfigEntry>, u128)>,
    file_modified: u128,
)
    requires
        snapshot.newer(file_modified),
        offers.len() > 0,
        forall|i: int| 0 <= i < offers.len() ==> (#[trigger] offers[i]).1 == file_modified,
    ensures
        snapshot.install_all(offers) == (Snapshot {
            entries: offers[0].0,
            stamp: file_modified,
        }),
        snapshot.installs(offers) == 1,
        forall|k: int|
            0 < k <= offers.len() ==> (#[trigger] snapshot.install_all(offers.take(k))).entries
                == offers[0].0,
{
    let first = snapshot.install(offers[0].0, offers[0].1);
    assert(first == Snapshot { entries: offers[0].0, stamp: file_modified });
    let rest = offers.drop_first();
    assert forall|i: int| 0 <= i < rest.len() implies !first.newer((#[trigger] rest[i]).1) by {
        assert(rest[i] == offers[i + 1]);
    }
    lemma_unchanged_file_keeps_snapshot(first, rest);
    assert forall|k: int| 0 < k <= offers.len() implies (#[trigger] snapshot.install_all(
        offers.take(k),
    )).entries == offers[0].0 by {
        let some = offers.take(k);
        assert(some[0] == offers[0]);
        let later = some.drop_first();
        assert forall|i: int| 0 <= i < later.len() implies !first.newer((#[trigger] later[i]).1) by {
            assert(later[i] == offers[i + 1]);
        }
        lemma_unchanged_file_keeps_snapshot(first, later);
    }
}

/// A snapshot of usable entries stays one: offering usable entries never
/// leaves an entry that is not usable.
pub proof fn lemma_install_keeps_usable(
    snapshot: Snapshot,
    candidate: Seq<ConfigEntry>,
    file_modified: u128,
)
    requires
        entries_valid(snapshot.entries),
        entries_valid(candidate),
    ensures
        entries_valid(snapshot.install(candidate, file_modified).entries),
{
}

/// The modification time of a snapshot never goes back.
pub proof fn lemma_install_keeps_or_advances(
    snapshot: Snapshot,
    candidate: Seq<ConfigEntry>,
    file_modified: u128,
)
    ensures
        snapshot.install(candidate, file_modified).stamp >= snapshot.stamp,
        !snapshot.install(candidate, file_modified).newer(file_modified),
{
}

/// The cached entries with the modification time of the file they were read
/// from, in nanoseconds since the Unix epoch.
#[derive(Debug)]
pub struct ConfigData {
    pub entries: Vec<ConfigEntry>,
    last_modified: u128,
}

impl ConfigData {
    /// What the cache holds.
    pub closed spec fn state(&self) -> Snapshot {
        Snapshot { entries: self.entries@, stamp: self.last_modified }
    }

    /// No entries, as of the Unix epoch.
    pub fn new() -> (data: Self)
        ensures
            data.state() == (Snapshot { entries: Seq::<ConfigEntry>::empty(), stamp: 0 }),
    {
        ConfigData { entries: Vec::new(), last_modified: 0 }
    }

    /// The modification time of the file that the entries were read from.
    pub fn last_modified(&self) -> (stamp: u128)
        ensures
            stamp == self.state().stamp,
    {
        self.last_modified
    }
}

/// What a caller of the store does next.
#[derive(Debug)]
pub enum LoadStep {
    /// The file is not newer than the cache: these are the current entries.
    Current(Vec<ConfigEntry>),
    /// The file is newer: read and parse it, then offer the result.
    Reload,
}

/// What the file system showed during one load: the modification time seen
/// first, what reading and parsing the file gave, and the modification time
/// seen again just before the result is installed. The last two are looked at
/// only where the step before them asks for it.
#[derive(Debug)]
pub struct FileObservation {
    pub modified: Result<u128, Error>,
    pub contents: Result<Vec<ConfigEntry>, Error>,
    pub modified_again: Result<u128, Error>,
}

impl FileObservation {
    /// Whether a load against this observation reads the file: the first look
    /// at it succeeds and shows it newer than `snapshot`.
    pub open spec fn reads(self, snapshot: Snapshot) -> bool {
        self.modified matches Ok(first) && snapshot.newer(first)
    }

    /// The position of the first entry that is not usable in what was read,
    /// where the file is read and parses; such a file is rejected.
    pub open spec fn rejected(self, snapshot: Snapshot) -> Option<int> {
        if self.reads(snapshot) {
            match self.contents {
                Ok(candidate) => first_invalid(candidate@),
                Err(_) => None,
            }
        } else {
            None
        }
    }

    /// The failure that is handed on by a load against this observation, if
    /// one is: of the first look at the file, or, where the file is read, of
    /// reading it or, for a file whose entries are all usable, of looking at it
    /// again.
    pub open spec fn failure(self, snapshot: Snapshot) -> Option<Error> {
        match self.modified {
            Err(e) => Some(e),
            Ok(first) => if !snapshot.newer(first) {
                None
            } else {
                match self.contents {
                    Err(e) => Some(e),
                    Ok(candidate) => if first_invalid(candidate@) is Some {
                        None
                    } else {
                        match self.modified_again {
                            Err(e) => Some(e),
                            Ok(_) => None,
                        }
                    },
                }
            },
        }
    }

    /// Whether a load against this observation offers what was read: the file
    /// is read, its entries are all usable, and nothing failed.
    pub open spec fn offers(self, snapshot: Snapshot) -> bool {
        self.reads(snapshot) && self.failure(snapshot) is None && self.rejected(snapshot) is None
    }

    /// The snapshot after a load against this observation: what was read is
    /// installed where it is offered and the file is still newer; every
    /// failure and every rejected file leaves the snapshot as it is.
    pub open spec fn applied(self, snapshot: Snapshot) -> Snapshot {
        if self.offers(snapshot) {
            snapshot.install(self.contents->Ok_0@, self.modified_again->Ok_0)
        } else {
            snapshot
        }
    }

    /// Whether a load against this observation installs what was read.
    pub open spec fn changes(self, snapshot: Snapshot) -> bool {
        self.offers(snapshot) && snapshot.newer(self.modified_again->Ok_0)
    }
}

/// The secrets file: its path and the cached snapshot of its entries, every
/// one of which is usable.
#[derive(Debug)]
pub struct ConfigFile {
    secrets_path: String,
    data: ConfigData,
}

impl ConfigFile {
    /// Every cached entry is usable.
    #[verifier::type_invariant]
    spec fn usable(&self) -> bool {
        entries_valid(self.data.entries@)
    }

    /// The path of the file.
    pub closed spec fn path(&self) -> Seq<char> {
        self.secrets_path@
    }

    /// The cached snapshot.
    pub closed spec fn state(&self) -> Snapshot {
        self.data.state()
    }

    /// A store for the file at `secrets_path` with an empty cache as of the
    /// Unix epoch.
    pub fn new(secrets_path: String) -> (store: Self)
        ensures
            store.path() == secrets_path@,
            store.state() == (Snapshot { entries: Seq::<ConfigEntry>::empty(), stamp: 0 }),
    {
        ConfigFile { secrets_path, data: ConfigData::new() }
    }

    /// The path of the file.
    pub fn secrets_path(&self) -> (path: &str)
        ensures
            path@ == self.path(),
    {
        self.secrets_path.as_str()
    }

    /// A copy of the cached entries, every one of them usable.
    pub fn snapshot(&self) -> (copy: Vec<ConfigEntry>)
        ensures
            copy@ == self.state().entries,
            entries_valid(copy@),
    {
        proof {
            use_type_invariant(self);
        }
        clone_entries(&self.data.entries)
    }

    /// The modification time of the file that the cache was read from.
    pub fn last_modified(&self) -> (stamp: u128)
        ensures
            stamp == self.state().stamp,
    {
        self.data.last_modified
    }

    /// Whether a file modified at `file_modified` is newer than the cache.
    pub fn has_been_modified(&self, file_modified: u128) -> (answer: bool)
        ensures
            answer == self.state().newer(file_modified),
    {
        self.data.last_modified < file_modified
    }

    /// The first step of a load, taken under the shared lock: where the file
    /// is not newer than the cache the cached entries are the answer, and
    /// nothing is to be read.
    pub fn check(&self, file_modified: u128) -> (step: LoadStep)
        ensures
            match step {
                LoadStep::Current(entries) => !self.state().newer(file_modified) && entries@
                    == self.state().entries && entries_valid(entries@),
                LoadStep::Reload => self.state().newer(file_modified),
            },
    {
        if self.has_been_modified(file_modified) {
            LoadStep::Reload
        } else {
            LoadStep::Current(self.snapshot())
        }
    }

    /// The last step of a load, taken under the exclusive lock with the
    /// modification time seen then. The candidate is what was read, with
    /// every entry usable. Where the file is still newer than the cache the
    /// candidate replaces the cache as a whole; otherwise another caller was
    /// first, and the candidate is dropped. Returns whether the candidate was
    /// installed, and the entries that are current afterwards.
    pub fn install(&mut self, candidate: Vec<ConfigEntry>, file_modified: u128) -> (outcome: (
        bool,
        Vec<ConfigEntry>,
    ))
        requires
            entries_valid(candidate@),
        ensures
            final(self).state() == old(self).state().install(candidate@, file_modified),
            final(self).path() == old(self).path(),
            outcome.0 == old(self).state().newer(file_modified),
            outcome.1@ == final(self).state().entries,
            entries_valid(outcome.1@),
    {
        if self.data.last_modified < file_modified {
            let served = clone_entries(&candidate);
            self.data.entries = candidate;
            self.data.last_modified = file_modified;
            (true, served)
        } else {
            (false, self.snapshot())
        }
    }

    /// One whole load against what the file system showed. A failure to look
    /// at or to read the file is handed on, and a file with an entry that is
    /// not usable is rejected as malformed, naming the first such entry;
    /// both leave the cache as it was. Otherwise the answer says whether what
    /// was read was installed, and gives the entries that are current
    /// afterwards, every one of them usable.
    pub fn load(&mut self, observed: FileObservation) -> (result: Result<
        (bool, Vec<ConfigEntry>),
        Error,
    >)
        ensures
            final(self).path() == old(self).path(),
            final(self).state() == observed.applied(old(self).state()),
            match observed.failure(old(self).state()) {
                Some(e) => result == Err::<(bool, Vec<ConfigEntry>), Error>(e) && final(
                    self
                ).state() == old(self).state(),
                None => match observed.rejected(old(self).state()) {
                    Some(position) => {
                        &&& result matches Err(Error::ConfigParse(detail))
                        &&& detail@ == invalid_detail(position)
                        &&& final(self).state() == old(self).state()
                    },
                    None => {
                        &&& result matches Ok((changed, entries))
                        &&& changed == observed.changes(old(self).state())
                        &&& entries@ == final(self).state().entries
                        &&& entries_valid(entries@)
                    },
                },
            },
    {
        let first = match observed.modified {
            Ok(stamp) => stamp,
            Err(e) => {
                return Err(e);
            },
        };
        match self.check(first) {
            LoadStep::Current(entries) => Ok((false, entries)),
            LoadStep::Reload => {
                let read = match observed.contents {
                    Ok(entries) => entries,
                    Err(e) => {
                        return Err(e);
                    },
                };
                proof {
                    lemma_first_invalid(read@);
                }
                let candidate = match validate_entries(read) {
                    Ok(entries) => entries,
                    Err(e) => {
                        return Err(e);
                    },
                };
                let second = match observed.modified_again {
                    Ok(stamp) => stamp,
                    Err(e) => {
                        return Err(e);
                    },
                };
                Ok(self.install(candidate, second))
            },
        }
    }

    /// The entry that `arg` selects: the one at position `arg` where `arg`
    /// writes an index, else the first whose handle is `arg`. Fails with
    /// `EntryNotFound` exactly when there is no such entry.
    pub fn get_secret(secrets: &[ConfigEntry], arg: &str) -> (result: Result<ConfigEntry, Error>)
        ensures
            match selected(secrets@, arg@) {
                Some(i) => result matches Ok(entry) && entry == secrets@[i],
                None => result matches Err(e) && e is EntryNotFound,
            },
    {
        match crate::text::parse_index(arg) {
            Some(index) => {
                if index < secrets.len() {
                    Ok(secrets[index].clone())
                } else {
                    Err(Error::EntryNotFound)
                }
            },
            None => {
                let wanted = arg.to_owned();
                let mut i: usize = 0;
                while i < secrets.len()
                    invariant
                        i <= secrets@.len(),
                        wanted@ == arg@,
                        crate::text::parsed_index(arg@) is None,
                        forall|j: int| 0 <= j < i ==> (#[trigger] secrets@[j]).handle@ != arg@,
                    decreases secrets@.len() - i,
                {
                    if secrets[i].handle == wanted {
                        proof {
                            assert(secrets@[i as int].handle@ == arg@);
                            assert(has_handle(secrets@, arg@));
                            assert(is_first_with_handle(secrets@, arg@, i as int));
                            let chosen = choose|k: int| is_first_with_handle(secrets@, arg@, k);
                            lemma_first_with_handle_unique(secrets@, arg@, i as int, chosen);
                        }
                        return Ok(secrets[i].clone());
                    }
                    i = i + 1;
                }
                Err(Error::EntryNotFound)
            },
        }
    }
}

} // verus!

//! The polling engine's state and the decisions of one cycle.
//!
//! The engine does no I/O. The caller fetches the messages, hands them in one
//! by one, and carries out what comes back: a clipboard write, a
//! notification, the list to persist and publish.

use crate::gmail::EmailMessage;
use crate::otp::{
    extract_otp, extract_provider, extract_sender_name, otp_of, provider_of, sender_name_of,
};
use crate::types::{auto_copy_allowed, ClipboardConfig, CodeEntry, PrivacyPreferences};
use vstd::prelude::*;
use vstd::string::StringExecFns;

verus! {

/// How many codes the in-memory list holds at most.
pub const MAX_RECENT_CODES: usize = 10;

/// Milliseconds that must pass between two notifications.
pub const NOTIFICATION_COOLDOWN_MS: u64 = 3000;

/// Milliseconds between two polling cycles, unless configured otherwise.
pub const DEFAULT_POLL_INTERVAL_MS: u64 = 8000;

/// The title of the notification for a new code.
pub const NOTIFICATION_TITLE: &'static str = "OTP Copied";

/// What the body of a notification starts with; the sender's name follows.
pub const NOTIFICATION_BODY_PREFIX: &'static str = "Code from ";

/// A message and a code found in it: what decides whether the code was
/// surfaced before.
pub type DedupKey = (Seq<char>, Seq<char>);

/// The keys of the entries of a list, in the list's order.
pub open spec fn entry_keys(codes: Seq<CodeEntry>) -> Seq<DedupKey> {
    Seq::new(codes.len(), |i: int| codes[i].key())
}

/// The recent codes, newest first, and the keys that were surfaced.
pub struct BookModel {
    pub codes: Seq<CodeEntry>,
    pub keys: Set<DedupKey>,
}

impl BookModel {
    /// At most ten codes, no two for the same key, and each one's key is
    /// among those surfaced.
    pub open spec fn wf(self) -> bool {
        &&& self.codes.len() <= MAX_RECENT_CODES
        &&& entry_keys(self.codes).no_duplicates()
        &&& forall|i: int| 0 <= i < self.codes.len() ==> self.keys.contains(#[trigger] self.codes[i].key())
    }

    /// The book after `entry` was offered to it.
    ///
    /// An entry for a key that was surfaced before changes nothing. A new one
    /// goes to the head of the list. When that makes eleven, the oldest
    /// leaves, and only the keys of the entries that stay are kept.
    pub open spec fn recorded(self, entry: CodeEntry) -> BookModel {
        if self.keys.contains(entry.key()) {
            self
        } else if self.codes.len() + 1 > MAX_RECENT_CODES {
            let kept = (seq![entry] + self.codes).take(MAX_RECENT_CODES as int);
            BookModel { codes: kept, keys: entry_keys(kept).to_set() }
        } else {
            BookModel { codes: seq![entry] + self.codes, keys: self.keys.insert(entry.key()) }
        }
    }

    /// Exactly one entry of the list was made for `key`.
    pub open spec fn holds_once(self, key: DedupKey) -> bool {
        exists|i: int|
            0 <= i < self.codes.len() && #[trigger] self.codes[i].key() == key && forall|j: int|
                0 <= j < self.codes.len() && #[trigger] self.codes[j].key() == key ==> j == i
    }

    /// No two entries of the list were made for `key`.
    pub open spec fn holds_at_most_once(self, key: DedupKey) -> bool {
        forall|i: int, j: int|
            0 <= i < self.codes.len() && 0 <= j < self.codes.len() && #[trigger] self.codes[i].key()
                == key && #[trigger] self.codes[j].key() == key ==> i == j
    }

    /// The book with nothing in it.
    pub open spec fn empty() -> BookModel {
        BookModel { codes: Seq::empty(), keys: Set::empty() }
    }

    /// The book that a saved list gives back: its entries offered one by one,
    /// the oldest first.
    pub open spec fn replayed(history: Seq<CodeEntry>) -> BookModel
        decreases history.len(),
    {
        if history.len() == 0 {
            BookModel::empty()
        } else {
            BookModel::replayed(history.skip(1)).recorded(history[0])
        }
    }
}

/// Offering an entry keeps the book well formed: in particular the list
/// never grows past ten.
pub proof fn lemma_recorded_wf(book: BookModel, entry: CodeEntry)
    requires
        book.wf(),
    ensures
        book.recorded(entry).wf(),
        book.recorded(entry).codes.len() <= MAX_RECENT_CODES,
{
    let after = book.recorded(entry);
    if !book.keys.contains(entry.key()) {
        let grown = seq![entry] + book.codes;
        assert forall|i: int| 0 <= i < grown.len() implies entry_keys(grown)[i] == (if i == 0 {
            entry.key()
        } else {
            entry_keys(book.codes)[i - 1]
        }) by {}
        assert(entry_keys(grown).no_duplicates()) by {
            assert forall|i: int, j: int|
                0 <= i < grown.len() && 0 <= j < grown.len() && i != j implies entry_keys(
                grown,
            )[i] != entry_keys(grown)[j] by {
                if i > 0 {
                    assert(book.keys.contains(book.codes[i - 1].key()));
                }
                if j > 0 {
                    assert(book.keys.contains(book.codes[j - 1].key()));
                }
            }
        }
        if book.codes.len() + 1 > MAX_RECENT_CODES {
            let kept = grown.take(MAX_RECENT_CODES as int);
            assert(after.codes == kept);
            assert forall|i: int| 0 <= i < kept.len() implies entry_keys(kept)[i] == entry_keys(
                grown,
            )[i] by {}
            assert forall|i: int| 0 <= i < kept.len() implies after.keys.contains(
                #[trigger] kept[i].key(),
            ) by {
                assert(entry_keys(kept)[i] == kept[i].key());
                assert(entry_keys(kept).contains(kept[i].key()));
            }
        } else {
            assert forall|i: int| 0 <= i < grown.len() implies after.keys.contains(
                #[trigger] grown[i].key(),
            ) by {
                if i > 0 {
                    assert(book.keys.contains(book.codes[i - 1].key()));
                }
            }
        }
    }
}

/// The same message and code offered twice gives one entry: the second
/// offer changes nothing, and the list never holds two entries for the key.
/// If the key was not surfaced before, the list holds it exactly once, at
/// its head.
pub proof fn lemma_same_key_twice(book: BookModel, first: CodeEntry, second: CodeEntry)
    requires
        book.wf(),
        second.key() == first.key(),
    ensures
        book.recorded(first).recorded(second) == book.recorded(first),
        book.recorded(first).holds_at_most_once(first.key()),
        !book.keys.contains(first.key()) ==> book.recorded(first).holds_once(first.key())
            && book.recorded(first).codes[0] == first,
{
    let after = book.recorded(first);
    lemma_recorded_wf(book, first);
    assert forall|i: int, j: int|
        0 <= i < after.codes.len() && 0 <= j < after.codes.len() && #[trigger] after.codes[i].key()
            == first.key() && #[trigger] after.codes[j].key() == first.key() implies i == j by {
        assert(entry_keys(after.codes)[i] == after.codes[i].key());
        assert(entry_keys(after.codes)[j] == after.codes[j].key());
    }
    if !book.keys.contains(first.key()) {
        assert(after.codes[0] == first);
        assert(after.keys.contains(after.codes[0].key()));
        assert(after.codes[0].key() == first.key());
    }
}

/// A key that was surfaced is not surfaced again, whatever else the entry
/// holds: the book stays as it is.
pub proof fn lemma_known_key_ignored(book: BookModel, entry: CodeEntry)
    requires
        book.keys.contains(entry.key()),
    ensures
        book.recorded(entry) == book,
{
}

/// When a new entry meets a full list, the oldest entry leaves and its key
/// is forgotten with it.
pub proof fn lemma_eviction_forgets_key(book: BookModel, entry: CodeEntry)
    requires
        book.wf(),
        book.codes.len() == MAX_RECENT_CODES,
        !book.keys.contains(entry.key()),
    ensures
        book.recorded(entry).codes == seq![entry] + book.codes.drop_last(),
        !book.recorded(entry).keys.contains(book.codes.last().key()),
        book.recorded(entry).keys == entry_keys(book.recorded(entry).codes).to_set(),
{
    let after = book.recorded(entry);
    let evicted = book.codes.last();
    assert(after.codes == seq![entry] + book.codes.drop_last());
    assert(book.keys.contains(book.codes[MAX_RECENT_CODES - 1].key()));
    if after.keys.contains(evicted.key()) {
        let i = choose|i: int|
            0 <= i < entry_keys(after.codes).len() && entry_keys(after.codes)[i] == evicted.key();
        assert(i > 0);
        assert(after.codes[i] == book.codes[i - 1]);
        assert(entry_keys(book.codes)[i - 1] == book.codes[i - 1].key());
        assert(entry_keys(book.codes)[MAX_RECENT_CODES - 1] == evicted.key());
        assert(false);
    }
}

/// A saved list gives back a well-formed book.
pub proof fn lemma_replayed_wf(history: Seq<CodeEntry>)
    ensures
        BookModel::replayed(history).wf(),
    decreases history.len(),
{
    if history.len() > 0 {
        lemma_replayed_wf(history.skip(1));
        lemma_recorded_wf(BookModel::replayed(history.skip(1)), history[0]);
    }
}

/// Notifications are rate-limited: after a code was surfaced with a
/// notification, a code surfaced less than 3000 ms later gets none, and the
/// time of the last notification stays. Both codes are offered to the book
/// all the same.
pub proof fn lemma_notifications_rate_limited(
    start: SessionState,
    between: SessionState,
    end: SessionState,
    first: Surfaced,
    second: Surfaced,
    first_snapshot: CycleSnapshot,
    second_snapshot: CycleSnapshot,
    first_enabled: bool,
    second_enabled: bool,
    first_ms: i64,
    second_ms: i64,
)
    requires
        between.surfaced_from(&start, first, &first_snapshot, first_enabled, first_ms),
        end.surfaced_from(&between, second, &second_snapshot, second_enabled, second_ms),
        first.notification is Some,
        clock_ms(second_ms) - clock_ms(first_ms) < NOTIFICATION_COOLDOWN_MS,
    ensures
        second.notification is None,
        end.last_notification == between.last_notification,
        between.book@ == start.book@.recorded(first.entry),
        end.book@ == between.book@.recorded(second.entry),
{
}

/// A notification is never due less than 3000 ms after the last one,
/// whatever the switch says; once the 3000 ms have passed it is due exactly
/// when notifications are on.
pub proof fn lemma_cooldown_decides(state: SessionState, notifications_enabled: bool, now_ms: i64)
    ensures
        clock_ms(now_ms) - state.last_notification < NOTIFICATION_COOLDOWN_MS
            ==> !state.notification_due_at(notifications_enabled, now_ms),
        clock_ms(now_ms) - state.last_notification >= NOTIFICATION_COOLDOWN_MS
            ==> state.notification_due_at(notifications_enabled, now_ms) == notifications_enabled,
{
}

/// The keys held by a list of stored pairs.
pub open spec fn stored_keys(pairs: Seq<(String, String)>) -> Seq<DedupKey> {
    Seq::new(pairs.len(), |i: int| (pairs[i].0@, pairs[i].1@))
}

/// The recent codes, newest first, with the keys of what was surfaced.
#[derive(Debug)]
pub struct CodeBook {
    codes: Vec<CodeEntry>,
    keys: Vec<(String, String)>,
}

impl View for CodeBook {
    type V = BookModel;

    closed spec fn view(&self) -> BookModel {
        BookModel { codes: self.codes@, keys: stored_keys(self.keys@).to_set() }
    }
}

impl CodeBook {
    /// The invariant of the book: that of its model.
    pub open spec fn wf(&self) -> bool {
        self@.wf()
    }

    /// A book with nothing in it.
    pub fn new() -> (book: Self)
        ensures
            book@ == BookModel::empty(),
            book.wf(),
    {
        let book = CodeBook { codes: Vec::new(), keys: Vec::new() };
        assert(book@.keys =~= Set::<DedupKey>::empty());
        assert(entry_keys(book@.codes) =~= Seq::<DedupKey>::empty());
        book
    }

    /// The book that a saved list gives back. The entries are offered one by
    /// one, the oldest first, so that at most ten stay and none twice.
    pub fn with_history(history: Vec<CodeEntry>) -> (book: Self)
        ensures
            book@ == BookModel::replayed(history@),
            book.wf(),
    {
        let mut book = CodeBook::new();
        let mut rest = history;
        let ghost all = history@;
        assert(all.skip(all.len() as int) =~= Seq::<CodeEntry>::empty());
        while rest.len() > 0
            invariant
                rest@ == all.take(rest@.len() as int),
                rest@.len() <= all.len(),
                book@ == BookModel::replayed(all.skip(rest@.len() as int)),
                book.wf(),
            decreases rest@.len(),
        {
            let ghost n = rest@.len() as int;
            let entry = rest.pop().unwrap();
            assert(entry == all[n - 1]);
            assert(all.skip(n - 1).skip(1) == all.skip(n));
            assert(all.skip(n - 1)[0] == all[n - 1]);
            book.record(entry);
            assert(rest@ == all.take(n - 1));
        }
        assert(all.skip(0) == all);
        book
    }

    /// Whether a code from this message was surfaced before.
    pub fn knows(&self, message_id: &String, code: &String) -> (known: bool)
        ensures
            known == self@.keys.contains((message_id@, code@)),
    {
        let ghost keys = stored_keys(self.keys@);
        let mut i: usize = 0;
        while i < self.keys.len()
            invariant
                i <= self.keys@.len(),
                keys == stored_keys(self.keys@),
                forall|j: int| 0 <= j < i ==> keys[j] != (message_id@, code@),
            decreases self.keys@.len() - i,
        {
            if self.keys[i].0 == *message_id && self.keys[i].1 == *code {
                assert(keys[i as int] == (message_id@, code@));
                assert(keys.contains((message_id@, code@)));
                return true;
            }
            i += 1;
        }
        false
    }

    /// Offers an entry to the book and says whether it was taken.
    ///
    /// An entry whose message and code were surfaced before is dropped.
    /// A new one goes to the head of the list; when the list then holds
    /// eleven the oldest leaves, and its key is forgotten with it.
    pub fn record(&mut self, entry: CodeEntry) -> (taken: bool)
        requires
            old(self).wf(),
        ensures
            final(self)@ == old(self)@.recorded(entry),
            taken == !old(self)@.keys.contains(entry.key()),
            final(self).wf(),
    {
        proof {
            lemma_recorded_wf(self@, entry);
        }
        if self.knows(&entry.message_id, &entry.code) {
            return false;
        }
        let ghost before = self@;
        let key = (entry.message_id.clone(), entry.code.clone());
        self.codes.insert(0, entry);
        assert(self.codes@ == seq![entry] + before.codes);
        if self.codes.len() > MAX_RECENT_CODES {
            self.codes.truncate(MAX_RECENT_CODES);
            let mut keys: Vec<(String, String)> = Vec::new();
            let mut i: usize = 0;
            while i < self.codes.len()
                invariant
                    i <= self.codes@.len(),
                    keys@.len() == i,
                    stored_keys(keys@) == entry_keys(self.codes@.take(i as int)),
                decreases self.codes@.len() - i,
            {
                let ghost copied = stored_keys(keys@);
                keys.push((self.codes[i].message_id.clone(), self.codes[i].code.clone()));
                assert forall|j: int| 0 <= j <= i implies stored_keys(keys@)[j] == entry_keys(
                    self.codes@.take(i + 1),
                )[j] by {
                    if j < i {
                        assert(copied[j] == entry_keys(self.codes@.take(i as int))[j]);
                    } else {
                        assert(keys@[j] == (self.codes@[j].message_id, self.codes@[j].code));
                    }
                }
                assert(stored_keys(keys@) =~= entry_keys(self.codes@.take(i + 1)));
                i += 1;
            }
            assert(self.codes@.take(self.codes@.len() as int) == self.codes@);
            self.keys = keys;
        } else {
            let ghost old_keys = stored_keys(self.keys@);
            self.keys.push(key);
            assert(stored_keys(self.keys@) =~= old_keys.push(entry.key()));
            proof {
                old_keys.lemma_push_to_set_commute(entry.key());
            }
        }
        true
    }

    /// Empties the list. The keys stay, so that what was surfaced before the
    /// list was cleared does not come back.
    pub fn clear(&mut self)
        ensures
            final(self)@.codes == Seq::<CodeEntry>::empty(),
            final(self)@.keys == old(self)@.keys,
            final(self).wf(),
    {
        self.codes.clear();
        assert(entry_keys(self.codes@) =~= Seq::<DedupKey>::empty());
    }

    /// How many codes the list holds.
    pub fn len(&self) -> (n: usize)
        ensures
            n == self@.codes.len(),
    {
        self.codes.len()
    }

    /// A copy of the list, newest first.
    pub fn codes(&self) -> (list: Vec<CodeEntry>)
        ensures
            list@ == self@.codes,
    {
        let mut list: Vec<CodeEntry> = Vec::new();
        let mut i: usize = 0;
        while i < self.codes.len()
            invariant
                i <= self.codes@.len(),
                list@ == self.codes@.take(i as int),
            decreases self.codes@.len() - i,
        {
            list.push(self.codes[i].clone());
            i += 1;
        }
        assert(self.codes@.take(self.codes@.len() as int) == self.codes@);
        list
    }
}

/// A code to put on the clipboard, and after how many seconds to clear it.
#[derive(Debug, PartialEq, Eq)]
pub struct ClipboardWrite {
    pub text: String,
    pub clear_after_seconds: u64,
}

/// A notification to show.
#[derive(Debug, PartialEq, Eq)]
pub struct Notification {
    pub title: String,
    pub body: String,
}

/// A newly surfaced code and what the caller is to do about it.
#[derive(Debug, PartialEq, Eq)]
pub struct Surfaced {
    pub entry: CodeEntry,
    pub copy: Option<ClipboardWrite>,
    pub notification: Option<Notification>,
}

/// What a cycle reads once at its start and then works with: the
/// preferences and the clipboard timeout.
#[derive(Debug)]
pub struct CycleSnapshot {
    pub preferences: PrivacyPreferences,
    pub clipboard_timeout_seconds: u64,
}

/// The text in which a passcode is looked for: subject, snippet and body,
/// with a space between them.
pub open spec fn searchable_text(msg: EmailMessage) -> Seq<char> {
    msg.subject@ + seq![' '] + msg.snippet@ + seq![' '] + msg.body@
}

/// The clock reading kept as the time of the last notification. A reading
/// before the epoch counts as the epoch.
pub open spec fn clock_ms(now_ms: i64) -> u64 {
    if now_ms >= 0 {
        now_ms as u64
    } else {
        0
    }
}

/// Whether the cooldown is over at `now_ms`: at least 3000 ms have passed
/// since the last notification.
pub open spec fn cooldown_over(last_notification: u64, now_ms: i64) -> bool {
    clock_ms(now_ms) - last_notification >= NOTIFICATION_COOLDOWN_MS
}

/// The state that the polling cycle and the shell's commands share.
#[derive(Debug)]
pub struct SessionState {
    pub book: CodeBook,
    pub last_notification: u64,
    pub is_polling: bool,
    pub clipboard_config: ClipboardConfig,
    pub privacy_preferences: PrivacyPreferences,
}

/// The text in which a passcode is looked for.
pub fn build_searchable_text(msg: &EmailMessage) -> (text: String)
    ensures
        text@ == searchable_text(*msg),
{
    proof {
        reveal_strlit(" ");
    }
    let mut text = msg.subject.clone();
    text.append(" ");
    text.append(msg.snippet.as_str());
    text.append(" ");
    text.append(msg.body.as_str());
    assert(" "@ == seq![' ']);
    text
}

impl SessionState {
    /// The invariant of the state: that of its book.
    pub open spec fn wf(&self) -> bool {
        self.book.wf()
    }

    /// The state at start-up: the saved codes, no notification yet, polling
    /// stopped.
    pub fn new(
        history: Vec<CodeEntry>,
        privacy_preferences: PrivacyPreferences,
        clipboard_timeout_seconds: u64,
    ) -> (state: Self)
        ensures
            state.wf(),
            state.book@ == BookModel::replayed(history@),
            state.last_notification == 0,
            !state.is_polling,
            state.clipboard_config.timeout_seconds == clipboard_timeout_seconds,
            state.privacy_preferences == privacy_preferences,
    {
        SessionState {
            book: CodeBook::with_history(history),
            last_notification: 0,
            is_polling: false,
            clipboard_config: ClipboardConfig { timeout_seconds: clipboard_timeout_seconds },
            privacy_preferences,
        }
    }

    /// Marks polling as running, unless it already is. One call tests and
    /// sets: of two callers only the first is told to start.
    pub fn try_start_polling(&mut self) -> (started: bool)
        ensures
            started == !old(self).is_polling,
            final(self).is_polling,
            final(self).book == old(self).book,
            final(self).last_notification == old(self).last_notification,
            final(self).clipboard_config == old(self).clipboard_config,
            final(self).privacy_preferences == old(self).privacy_preferences,
    {
        if self.is_polling {
            return false;
        }
        self.is_polling = true;
        true
    }

    /// What a cycle works with from its start to its end: the preferences
    /// and the clipboard timeout as they are now.
    pub fn snapshot(&self) -> (snapshot: CycleSnapshot)
        ensures
            snapshot.preferences.auto_copy_enabled == self.privacy_preferences.auto_copy_enabled,
            snapshot.preferences.provider_auto_copy@
                == self.privacy_preferences.provider_auto_copy@,
            snapshot.clipboard_timeout_seconds == self.clipboard_config.timeout_seconds,
    {
        CycleSnapshot {
            preferences: self.privacy_preferences.clone(),
            clipboard_timeout_seconds: self.clipboard_config.timeout_seconds,
        }
    }

    /// Whether a notification is due for a code surfaced at `now_ms`: it is
    /// when notifications are on and at least 3000 ms have passed since the
    /// last one.
    pub open spec fn notification_due_at(&self, notifications_enabled: bool, now_ms: i64) -> bool {
        notifications_enabled && cooldown_over(self.last_notification, now_ms)
    }

    /// Whether a notification is due for a code surfaced at `now_ms`.
    pub fn notification_due(&self, notifications_enabled: bool, now_ms: i64) -> (due: bool)
        ensures
            due == self.notification_due_at(notifications_enabled, now_ms),
    {
        let now: u64 = if now_ms >= 0 {
            now_ms as u64
        } else {
            0
        };
        notifications_enabled && now >= self.last_notification && now - self.last_notification
            >= NOTIFICATION_COOLDOWN_MS
    }

    /// Nothing that a message can change has changed since `before`: not
    /// the book, not the time of the last notification.
    pub open spec fn unchanged_by_message(&self, before: &SessionState) -> bool {
        self.book@ == before.book@ && self.last_notification == before.last_notification
    }

    /// What a message cannot change is as in `before`.
    pub open spec fn same_settings(&self, before: &SessionState) -> bool {
        &&& self.is_polling == before.is_polling
        &&& self.clipboard_config == before.clipboard_config
        &&& self.privacy_preferences == before.privacy_preferences
    }

    /// `surfaced` is what surfacing its entry at `now_ms` gives, and `self`
    /// is the state that `before` becomes by it.
    ///
    /// The entry bears the time and is offered to the book. The code is to
    /// be copied, with the snapshot's timeout, exactly when the snapshot's
    /// preferences allow it for the entry's provider. A notification is due
    /// exactly when notifications are on and at least 3000 ms have passed
    /// between the last notification and `now_ms`; it names the sender and
    /// not the code, and the time of the last notification becomes `now_ms`.
    pub open spec fn surfaced_from(
        &self,
        before: &SessionState,
        surfaced: Surfaced,
        snapshot: &CycleSnapshot,
        notifications_enabled: bool,
        now_ms: i64,
    ) -> bool {
        let copy = auto_copy_allowed(
            snapshot.preferences.auto_copy_enabled,
            snapshot.preferences.provider_auto_copy@,
            surfaced.entry.provider@,
        );
        let notify = before.notification_due_at(notifications_enabled, now_ms);
        &&& surfaced.entry.timestamp == now_ms
        &&& self.book@ == before.book@.recorded(surfaced.entry)
        &&& match surfaced.copy {
            Some(w) => copy && w.text@ == surfaced.entry.code@ && w.clear_after_seconds
                == snapshot.clipboard_timeout_seconds,
            None => !copy,
        }
        &&& match surfaced.notification {
            Some(n) => notify && n.title@ == NOTIFICATION_TITLE@ && n.body@
                == NOTIFICATION_BODY_PREFIX@ + surfaced.entry.sender@,
            None => !notify,
        }
        &&& self.last_notification == (if notify {
            clock_ms(now_ms)
        } else {
            before.last_notification
        })
    }

    /// Surfaces a code that was found in a message, unless it was surfaced
    /// before.
    ///
    /// For a new code the entry is built and offered to the book. The code is
    /// to be copied when the preferences allow it for this provider, and a
    /// notification is due when notifications are on and the last one is at
    /// least 3000 ms back; its body names the sender, never the code.
    pub fn surface(
        &mut self,
        message_id: String,
        code: String,
        sender: String,
        provider: String,
        snapshot: &CycleSnapshot,
        notifications_enabled: bool,
        now_ms: i64,
    ) -> (surfaced: Option<Surfaced>)
        requires
            old(self).wf(),
        ensures
            final(self).wf(),
            final(self).same_settings(old(self)),
            if old(self).book@.keys.contains((message_id@, code@)) {
                surfaced is None && final(self).unchanged_by_message(old(self))
            } else {
                &&& surfaced is Some
                &&& surfaced->0.entry == (CodeEntry {
                    code,
                    sender,
                    provider,
                    timestamp: now_ms,
                    message_id,
                })
                &&& final(self).surfaced_from(
                    old(self),
                    surfaced->0,
                    snapshot,
                    notifications_enabled,
                    now_ms,
                )
            },
    {
        if self.book.knows(&message_id, &code) {
            return None;
        }
        let copy = if snapshot.preferences.should_auto_copy(provider.as_str()) {
            Some(
                ClipboardWrite {
                    text: code.clone(),
                    clear_after_seconds: snapshot.clipboard_timeout_seconds,
                },
            )
        } else {
            None
        };
        let notification = if self.notification_due(notifications_enabled, now_ms) {
            let mut body = NOTIFICATION_BODY_PREFIX.to_owned();
            body.append(sender.as_str());
            self.last_notification = if now_ms >= 0 {
                now_ms as u64
            } else {
                0
            };
            Some(Notification { title: NOTIFICATION_TITLE.to_owned(), body })
        } else {
            None
        };
        let entry = CodeEntry { code, sender, provider, timestamp: now_ms, message_id };
        let shown = entry.clone();
        self.book.record(entry);
        Some(Surfaced { entry: shown, copy, notification })
    }

    /// Handles one fetched message: looks for a passcode in its subject,
    /// snippet and body, and surfaces it if it is new.
    ///
    /// Nothing happens when the text holds no passcode, or when this code
    /// from this message was surfaced before. Otherwise the sender's name
    /// and provider are derived from the `From` header and the code is
    /// surfaced as `surface` describes.
    pub fn process_message(
        &mut self,
        msg: &EmailMessage,
        snapshot: &CycleSnapshot,
        notifications_enabled: bool,
        now_ms: i64,
    ) -> (surfaced: Option<Surfaced>)
        requires
            old(self).wf(),
        ensures
            final(self).wf(),
            final(self).same_settings(old(self)),
            match otp_of(searchable_text(*msg)) {
                Some(code) if !old(self).book@.keys.contains((msg.id@, code)) => {
                    &&& surfaced is Some
                    &&& surfaced->0.entry.code@ == code
                    &&& surfaced->0.entry.sender@ == sender_name_of(msg.from@)
                    &&& surfaced->0.entry.provider@ == provider_of(msg.from@)
                    &&& surfaced->0.entry.message_id@ == msg.id@
                    &&& final(self).surfaced_from(
                        old(self),
                        surfaced->0,
                        snapshot,
                        notifications_enabled,
                        now_ms,
                    )
                },
                _ => surfaced is None && final(self).unchanged_by_message(old(self)),
            },
    {
        let text = build_searchable_text(msg);
        match extract_otp(text.as_str()) {
            None => None,
            Some(code) => {
                let provider = extract_provider(msg.from.as_str());
                let sender = extract_sender_name(msg.from.as_str());
                self.surface(
                    msg.id.clone(),
                    code,
                    sender,
                    provider,
                    snapshot,
                    notifications_enabled,
                    now_ms,
                )
            },
        }
    }

    /// The codes to show, newest first.
    pub fn get_codes(&self) -> (codes: Vec<CodeEntry>)
        ensures
            codes@ == self.book@.codes,
    {
        self.book.codes()
    }

    /// Empties the list of codes.
    pub fn clear_history(&mut self)
        ensures
            final(self).wf(),
            final(self).book@.codes == Seq::<CodeEntry>::empty(),
            final(self).book@.keys == old(self).book@.keys,
            final(self).last_notification == old(self).last_notification,
            final(self).is_polling == old(self).is_polling,
            final(self).clipboard_config == old(self).clipboard_config,
            final(self).privacy_preferences == old(self).privacy_preferences,
    {
        self.book.clear();
    }

    /// The clipboard write for a code that the user asked to copy: the code,
    /// to be cleared after the configured timeout.
    pub fn copy_code_with_expiry(&self, code: String) -> (write: ClipboardWrite)
        ensures
            write.text == code,
            write.clear_after_seconds == self.clipboard_config.timeout_seconds,
    {
        ClipboardWrite { text: code, clear_after_seconds: self.clipboard_config.timeout_seconds }
    }

    /// The clipboard configuration.
    pub fn get_clipboard_config(&self) -> (config: ClipboardConfig)
        ensures
            config == self.clipboard_config,
    {
        self.clipboard_config
    }

    /// Sets after how many seconds a copied code is cleared.
    pub fn set_clipboard_timeout(&mut self, timeout_seconds: u64)
        ensures
            final(self).clipboard_config.timeout_seconds == timeout_seconds,
            final(self).book == old(self).book,
            final(self).last_notification == old(self).last_notification,
            final(self).is_polling == old(self).is_polling,
            final(self).privacy_preferences == old(self).privacy_preferences,
    {
        self.clipboard_config.timeout_seconds = timeout_seconds;
    }
}

} // verus!

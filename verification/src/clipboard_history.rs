//! Bounded, in-memory clipboard history with deterministic ownership cleanup.

use vstd::prelude::*;

use crate::clipboard::{ClipboardBackend, ClipboardError, ClipboardProvider, SessionPrivacyEvent};
use crate::text::{owned, str_equal};

verus! {

pub const DEFAULT_MAX_ITEM_BYTES: usize = 1024 * 1024;

pub const DEFAULT_MAX_ITEMS: usize = 100;

/// One day, in milliseconds.
pub const DEFAULT_MAX_AGE_MILLIS: u64 = 24 * 60 * 60 * 1000;

pub const DEFAULT_POLL_INTERVAL_MILLIS: u64 = 250;

/// Clears a string's contents in place before it is released.
///
/// Trusted: calls `zeroize::Zeroize::zeroize` on the `String`, whose source
/// zeroes the underlying byte vector and then clears it, leaving it empty.
#[verifier::external_body]
fn erase_text(text: &mut String)
    ensures
        final(text)@.len() == 0,
{
    zeroize::Zeroize::zeroize(text);
}

/// Bounds on what clipboard history keeps, and how often it polls.
#[derive(Debug, Clone, Copy, PartialEq, Eq, Structural)]
pub struct ClipboardPolicy {
    pub max_item_bytes: usize,
    pub max_items: usize,
    pub max_age_millis: u64,
    pub poll_interval_millis: u64,
}

impl Default for ClipboardPolicy {
    fn default() -> (policy: Self)
        ensures
            policy == (ClipboardPolicy {
                max_item_bytes: DEFAULT_MAX_ITEM_BYTES,
                max_items: DEFAULT_MAX_ITEMS,
                max_age_millis: DEFAULT_MAX_AGE_MILLIS,
                poll_interval_millis: DEFAULT_POLL_INTERVAL_MILLIS,
            }),
    {
        ClipboardPolicy {
            max_item_bytes: DEFAULT_MAX_ITEM_BYTES,
            max_items: DEFAULT_MAX_ITEMS,
            max_age_millis: DEFAULT_MAX_AGE_MILLIS,
            poll_interval_millis: DEFAULT_POLL_INTERVAL_MILLIS,
        }
    }
}

/// Every limit and the polling interval are non-zero.
pub open spec fn valid_policy(policy: ClipboardPolicy) -> bool {
    policy.max_item_bytes != 0 && policy.max_items != 0 && policy.max_age_millis != 0
        && policy.poll_interval_millis != 0
}

impl ClipboardPolicy {
    /// Accepts the policy when every limit and the interval are non-zero.
    pub fn validate(self) -> (result: Result<Self, ClipboardServiceError>)
        ensures
            valid_policy(self) ==> result == Ok::<Self, ClipboardServiceError>(self),
            !valid_policy(self) ==> (result matches Err(ClipboardServiceError::InvalidPolicy(message))
                && message@ == "clipboard limits and polling interval must be non-zero"@),
    {
        if self.max_item_bytes == 0 || self.max_items == 0 || self.max_age_millis == 0
            || self.poll_interval_millis == 0 {
            return Err(
                ClipboardServiceError::InvalidPolicy(
                    owned("clipboard limits and polling interval must be non-zero"),
                ),
            );
        }
        Ok(self)
    }
}

/// Whether history is being kept.
#[derive(Debug, Clone, Copy, PartialEq, Eq, Structural)]
pub enum ClipboardLifecycle {
    Stopped,
    Running,
    Unavailable,
}

/// What a snapshot says of one kept item: never its content.
#[derive(Debug, Clone, Copy, PartialEq, Eq, Structural)]
pub struct ClipboardItemMetadata {
    pub id: u64,
    pub size_bytes: usize,
    pub age_millis: u64,
}

/// A redacted view of clipboard history.
#[derive(Debug, Clone, PartialEq, Eq)]
pub struct ClipboardSnapshot {
    pub lifecycle: ClipboardLifecycle,
    pub provider: Option<ClipboardProvider>,
    pub items: Vec<ClipboardItemMetadata>,
    pub total_bytes: usize,
    pub rejected_oversize_items: u64,
    pub wipe_count: u64,
    pub last_error: Option<String>,
}

impl ClipboardSnapshot {
    /// The snapshot of a service that is not running.
    pub fn stopped() -> (snapshot: Self)
        ensures
            snapshot.lifecycle == ClipboardLifecycle::Stopped,
            snapshot.provider is None,
            snapshot.items@.len() == 0,
            snapshot.total_bytes == 0,
            snapshot.rejected_oversize_items == 0,
            snapshot.wipe_count == 0,
            snapshot.last_error is None,
    {
        ClipboardSnapshot {
            lifecycle: ClipboardLifecycle::Stopped,
            provider: None,
            items: Vec::new(),
            total_bytes: 0,
            rejected_oversize_items: 0,
            wipe_count: 0,
            last_error: None,
        }
    }
}

/// A request to the clipboard history worker.
#[derive(Debug, Clone, Copy, PartialEq, Eq, Structural)]
pub enum ClipboardCommand {
    Refresh,
    SelectItem { item_id: u64 },
    Wipe,
}

/// Why a clipboard history request failed.
#[derive(Debug, Clone, PartialEq, Eq)]
pub enum ClipboardServiceError {
    InvalidPolicy(String),
    AlreadyRunning,
    NotRunning,
    UnknownItem { item_id: u64 },
    Backend(ClipboardError),
    WorkerStopped,
    WorkerTimedOut,
}

/// One kept clipboard text and when it was captured.
#[derive(Debug)]
pub struct StoredItem {
    pub id: u64,
    pub captured_at_millis: u64,
    pub content: String,
}

/// The number of UTF-8 bytes of a text, as `str::len` reports it.
pub open spec fn text_bytes(text: Seq<char>) -> usize {
    vstd::utf8::encode_utf8(text).len() as usize
}

/// `now - then`, or zero when `then` is later.
pub open spec fn elapsed(now: u64, then: u64) -> u64 {
    if now >= then {
        (now - then) as u64
    } else {
        0
    }
}

/// `value + 1`, or the maximum when that overflows.
pub open spec fn saturating_increment(value: u64) -> u64 {
    if value < u64::MAX {
        (value + 1) as u64
    } else {
        u64::MAX
    }
}

/// Whether an item is older than the maximum age at `now`.
pub open spec fn expired(item: StoredItem, now: u64, max_age_millis: u64) -> bool {
    elapsed(now, item.captured_at_millis) > max_age_millis
}

/// The items left after dropping the expired ones at the front, oldest first.
pub open spec fn pruned(items: Seq<StoredItem>, now: u64, max_age_millis: u64) -> Seq<StoredItem>
    decreases items.len(),
{
    if items.len() > 0 && expired(items[0], now, max_age_millis) {
        pruned(items.drop_first(), now, max_age_millis)
    } else {
        items
    }
}

/// Pruning twice at the same moment drops nothing more.
pub proof fn lemma_pruned_idempotent(items: Seq<StoredItem>, now: u64, max_age_millis: u64)
    ensures
        pruned(pruned(items, now, max_age_millis), now, max_age_millis) == pruned(items, now, max_age_millis),
    decreases items.len(),
{
    if items.len() > 0 && expired(items[0], now, max_age_millis) {
        lemma_pruned_idempotent(items.drop_first(), now, max_age_millis);
    }
}

/// The newest `limit` items.
pub open spec fn newest(items: Seq<StoredItem>, limit: nat) -> Seq<StoredItem> {
    if items.len() > limit {
        items.subrange(items.len() - limit, items.len() as int)
    } else {
        items
    }
}

/// The total of `sizes`, capped at the largest `usize`.
pub open spec fn capped_total(sizes: Seq<ClipboardItemMetadata>) -> nat
    decreases sizes.len(),
{
    if sizes.len() == 0 {
        0
    } else {
        let rest = capped_total(sizes.drop_last());
        if rest + sizes.last().size_bytes > usize::MAX {
            usize::MAX as nat
        } else {
            (rest + sizes.last().size_bytes) as nat
        }
    }
}

/// What a snapshot says of one kept item at `now`.
pub open spec fn metadata_of(item: StoredItem, now: u64) -> ClipboardItemMetadata {
    ClipboardItemMetadata {
        id: item.id,
        size_bytes: text_bytes(item.content@),
        age_millis: elapsed(now, item.captured_at_millis),
    }
}

/// Bounded clipboard history, oldest item first.
pub struct HistoryStore {
    policy: ClipboardPolicy,
    items: Vec<StoredItem>,
    next_id: u64,
    rejected_oversize_items: u64,
    wipe_count: u64,
}

impl HistoryStore {
    /// The policy the store enforces.
    pub closed spec fn policy_of(&self) -> ClipboardPolicy {
        self.policy
    }

    /// The kept items, oldest first.
    pub closed spec fn items_of(&self) -> Seq<StoredItem> {
        self.items@
    }

    /// The identifier the next captured item gets.
    pub closed spec fn next_id_of(&self) -> u64 {
        self.next_id
    }

    /// How many items were refused for their size.
    pub closed spec fn rejected_of(&self) -> u64 {
        self.rejected_oversize_items
    }

    /// How many times the history was wiped.
    pub closed spec fn wipes_of(&self) -> u64 {
        self.wipe_count
    }

    /// Every kept item is non-empty and within the size limit, and there are
    /// no more of them than the policy allows.
    pub open spec fn bounded(&self) -> bool {
        &&& self.items_of().len() <= self.policy_of().max_items
        &&& forall|i: int| 0 <= i < self.items_of().len() ==> {
            let content = (#[trigger] self.items_of()[i]).content@;
            content.len() > 0 && text_bytes(content) <= self.policy_of().max_item_bytes
        }
    }

    /// An empty store.
    pub fn new(policy: ClipboardPolicy) -> (store: Self)
        ensures
            store.policy_of() == policy,
            store.items_of().len() == 0,
            store.next_id_of() == 1,
            store.rejected_of() == 0,
            store.wipes_of() == 0,
            store.bounded(),
    {
        HistoryStore {
            policy,
            items: Vec::new(),
            next_id: 1,
            rejected_oversize_items: 0,
            wipe_count: 0,
        }
    }

    fn drop_oldest(&mut self)
        requires
            old(self).items@.len() > 0,
        ensures
            final(self).items@ == old(self).items@.drop_first(),
            final(self).policy == old(self).policy,
            final(self).next_id == old(self).next_id,
            final(self).rejected_oversize_items == old(self).rejected_oversize_items,
            final(self).wipe_count == old(self).wipe_count,
    {
        let mut item = self.items.remove(0);
        erase_text(&mut item.content);
    }

    fn front_expired(&self, now: u64) -> (expired_front: bool)
        ensures
            expired_front == (self.items@.len() > 0 && expired(self.items@[0], now, self.policy.max_age_millis)),
    {
        if self.items.len() == 0 {
            return false;
        }
        let captured = self.items[0].captured_at_millis;
        let age: u64 = if now >= captured { now - captured } else { 0 };
        age > self.policy.max_age_millis
    }

    /// Drops the items older than the maximum age, oldest first.
    pub fn prune(&mut self, now: u64)
        ensures
            final(self).items_of() == pruned(old(self).items_of(), now, old(self).policy_of().max_age_millis),
            final(self).policy_of() == old(self).policy_of(),
            final(self).next_id_of() == old(self).next_id_of(),
            final(self).rejected_of() == old(self).rejected_of(),
            final(self).wipes_of() == old(self).wipes_of(),
            old(self).bounded() ==> final(self).bounded(),
    {
        let ghost initial = self.items@;
        let max_age = self.policy.max_age_millis;
        while self.front_expired(now)
            invariant
                max_age == self.policy.max_age_millis,
                self.policy == old(self).policy,
                self.next_id == old(self).next_id,
                self.rejected_oversize_items == old(self).rejected_oversize_items,
                self.wipe_count == old(self).wipe_count,
                pruned(initial, now, max_age) == pruned(self.items@, now, max_age),
                initial == old(self).items@,
                self.items@.len() <= initial.len(),
                forall|i: int| 0 <= i < self.items@.len() ==> self.items@[i] == initial[i + initial.len() - self.items@.len()],
            decreases self.items@.len(),
        {
            self.drop_oldest();
        }
        proof {
            if old(self).bounded() {
                assert forall|i: int| 0 <= i < self.items@.len() implies {
                    let content = (#[trigger] self.items@[i]).content@;
                    content.len() > 0 && text_bytes(content) <= self.policy.max_item_bytes
                } by {
                    assert(self.items@[i] == initial[i + initial.len() - self.items@.len()]);
                }
            }
        }
    }

    /// Captures a clipboard text unless it is empty, oversized, or the same
    /// as the newest item; the oldest items give way to the count limit.
    pub fn capture(&mut self, content: String, now: u64) -> (captured: bool)
        ensures
            final(self).policy_of() == old(self).policy_of(),
            final(self).wipes_of() == old(self).wipes_of(),
            old(self).bounded() ==> final(self).bounded(),
            ({
                let kept = pruned(old(self).items_of(), now, old(self).policy_of().max_age_millis);
                if content@.len() == 0 {
                    !captured && final(self).items_of() == kept && final(self).rejected_of() == old(self).rejected_of()
                        && final(self).next_id_of() == old(self).next_id_of()
                } else if text_bytes(content@) > old(self).policy_of().max_item_bytes {
                    !captured && final(self).items_of() == kept
                        && final(self).rejected_of() == saturating_increment(old(self).rejected_of())
                        && final(self).next_id_of() == old(self).next_id_of()
                } else if kept.len() > 0 && kept.last().content@ == content@ {
                    !captured && final(self).items_of() == kept && final(self).rejected_of() == old(self).rejected_of()
                        && final(self).next_id_of() == old(self).next_id_of()
                } else {
                    &&& captured
                    &&& final(self).items_of() == newest(
                        kept.push(StoredItem { id: old(self).next_id_of(), captured_at_millis: now, content }),
                        old(self).policy_of().max_items as nat,
                    )
                    &&& final(self).rejected_of() == old(self).rejected_of()
                    &&& final(self).next_id_of() == saturating_increment(old(self).next_id_of())
                }
            }),
    {
        self.prune(now);
        let ghost kept = self.items@;
        if content.as_str().is_empty() {
            return false;
        }
        if content.as_str().len() > self.policy.max_item_bytes {
            self.rejected_oversize_items = if self.rejected_oversize_items < u64::MAX {
                self.rejected_oversize_items + 1
            } else {
                u64::MAX
            };
            return false;
        }
        let length = self.items.len();
        if length > 0 && str_equal(self.items[length - 1].content.as_str(), content.as_str()) {
            return false;
        }
        let ghost item = StoredItem { id: self.next_id, captured_at_millis: now, content };
        let ghost content_view = content@;
        self.items.push(StoredItem { id: self.next_id, captured_at_millis: now, content });
        self.next_id = if self.next_id < u64::MAX {
            self.next_id + 1
        } else {
            u64::MAX
        };
        let ghost all = self.items@;
        assert(all == kept.push(item));
        assert(old(self).bounded() ==> forall|i: int| 0 <= i < kept.len() ==> {
            let text = (#[trigger] kept[i]).content@;
            text.len() > 0 && text_bytes(text) <= self.policy.max_item_bytes
        });
        let max_items = self.policy.max_items;
        while self.items.len() > max_items
            invariant
                max_items == self.policy.max_items,
                self.policy == old(self).policy,
                self.items@.len() <= all.len(),
                forall|i: int| 0 <= i < self.items@.len() ==> self.items@[i] == all[i + all.len() - self.items@.len()],
                self.items@.len() >= max_items || self.items@ == all,
                all == kept.push(item),
                kept == pruned(old(self).items@, now, old(self).policy.max_age_millis),
                item.id == old(self).next_id,
                item.content@ == content_view,
                content_view.len() > 0,
                text_bytes(content_view) <= self.policy.max_item_bytes,
                self.next_id == saturating_increment(old(self).next_id),
                self.rejected_oversize_items == old(self).rejected_oversize_items,
                self.wipe_count == old(self).wipe_count,
                old(self).bounded() ==> forall|i: int| 0 <= i < kept.len() ==> {
                    let text = (#[trigger] kept[i]).content@;
                    text.len() > 0 && text_bytes(text) <= self.policy.max_item_bytes
                },
            decreases self.items@.len(),
        {
            self.drop_oldest();
        }
        proof {
            let expected = newest(all, max_items as nat);
            if all.len() > max_items {
                assert(self.items@ =~= expected);
            } else {
                assert(self.items@ =~= all);
            }
            if old(self).bounded() {
                assert forall|i: int| 0 <= i < self.items@.len() implies {
                    let text = (#[trigger] self.items@[i]).content@;
                    text.len() > 0 && text_bytes(text) <= self.policy.max_item_bytes
                } by {
                    let j = i + all.len() - self.items@.len();
                    assert(self.items@[i] == all[j]);
                    if j < kept.len() {
                        assert(all[j] == kept[j]);
                    } else {
                        assert(all[j] == item);
                    }
                }
            }
        }
        true
    }

    /// A copy of the content of the item with `item_id`, if it is kept.
    pub fn content(&self, item_id: u64) -> (found: Option<String>)
        ensures
            found matches Some(text) ==> exists|i: int|
                0 <= i < self.items_of().len() && (#[trigger] self.items_of()[i]).id == item_id
                    && self.items_of()[i].content == text,
            found is None ==> forall|i: int| 0 <= i < self.items_of().len() ==> (#[trigger] self.items_of()[i]).id != item_id,
    {
        let mut index: usize = 0;
        while index < self.items.len()
            invariant
                index <= self.items@.len(),
                forall|j: int| 0 <= j < index ==> self.items@[j].id != item_id,
            decreases self.items@.len() - index,
        {
            if self.items[index].id == item_id {
                let text = self.items[index].content.clone();
                assert(self.items_of()[index as int].id == item_id);
                assert(self.items_of()[index as int].content == text);
                return Some(text);
            }
            index += 1;
        }
        None
    }

    /// Erases every kept item and counts the wipe.
    pub fn wipe(&mut self)
        ensures
            final(self).items_of().len() == 0,
            final(self).wipes_of() == saturating_increment(old(self).wipes_of()),
            final(self).policy_of() == old(self).policy_of(),
            final(self).next_id_of() == old(self).next_id_of(),
            final(self).rejected_of() == old(self).rejected_of(),
            final(self).bounded(),
    {
        while self.items.len() > 0
            invariant
                self.policy == old(self).policy,
                self.next_id == old(self).next_id,
                self.rejected_oversize_items == old(self).rejected_oversize_items,
                self.wipe_count == old(self).wipe_count,
            decreases self.items@.len(),
        {
            self.drop_oldest();
        }
        self.wipe_count = if self.wipe_count < u64::MAX {
            self.wipe_count + 1
        } else {
            u64::MAX
        };
    }

    /// A redacted snapshot at `now`: each item's identifier, size and age.
    pub fn snapshot(
        &self,
        lifecycle: ClipboardLifecycle,
        provider: Option<ClipboardProvider>,
        last_error: Option<String>,
        now: u64,
    ) -> (snapshot: ClipboardSnapshot)
        ensures
            snapshot.lifecycle == lifecycle,
            snapshot.provider == provider,
            snapshot.last_error == last_error,
            snapshot.items@ == self.items_of().map_values(|item: StoredItem| metadata_of(item, now)),
            snapshot.total_bytes == capped_total(snapshot.items@),
            snapshot.rejected_oversize_items == self.rejected_of(),
            snapshot.wipe_count == self.wipes_of(),
    {
        let mut items: Vec<ClipboardItemMetadata> = Vec::new();
        let mut total: usize = 0;
        let mut index: usize = 0;
        while index < self.items.len()
            invariant
                index <= self.items@.len(),
                items@ == self.items@.subrange(0, index as int).map_values(|item: StoredItem| metadata_of(item, now)),
                total == capped_total(items@),
            decreases self.items@.len() - index,
        {
            let item = &self.items[index];
            let captured = item.captured_at_millis;
            let age: u64 = if now >= captured { now - captured } else { 0 };
            let size = item.content.as_str().len();
            let ghost before = items@;
            items.push(ClipboardItemMetadata { id: item.id, size_bytes: size, age_millis: age });
            total = if total > usize::MAX - size { usize::MAX } else { total + size };
            proof {
                assert(items@.drop_last() =~= before);
                assert(items@ =~= self.items@.subrange(0, index + 1).map_values(|item: StoredItem| metadata_of(item, now)));
            }
            index += 1;
        }
        assert(self.items@.subrange(0, self.items@.len() as int) =~= self.items@);
        ClipboardSnapshot {
            lifecycle,
            provider,
            total_bytes: total,
            items,
            rejected_oversize_items: self.rejected_oversize_items,
            wipe_count: self.wipe_count,
            last_error,
        }
    }
}

fn copy_text(value: &Option<String>) -> (copy: Option<String>)
    ensures
        copy == *value,
{
    match value {
        Some(text) => Some(text.clone()),
        None => None,
    }
}

/// The clipboard history worker's state between polls: the history, the
/// selection Kestrel owns, the last selection seen and the last failure.
pub struct ClipboardWorker {
    history: HistoryStore,
    provider: ClipboardProvider,
    last_owned: Option<String>,
    last_observed: Option<String>,
    last_error: Option<String>,
}

impl ClipboardWorker {
    /// The history the worker keeps.
    pub closed spec fn history_of(&self) -> HistoryStore {
        self.history
    }

    /// The selection Kestrel currently owns, if any.
    pub closed spec fn owned_of(&self) -> Option<String> {
        self.last_owned
    }

    /// The last selection seen, if any.
    pub closed spec fn observed_of(&self) -> Option<Seq<char>> {
        crate::text::optional_text(self.last_observed)
    }

    /// The last failure recorded.
    pub closed spec fn error_of(&self) -> Option<String> {
        self.last_error
    }

    /// The provider the worker reads.
    pub closed spec fn provider_of(&self) -> ClipboardProvider {
        self.provider
    }

    /// A worker with empty history that owns nothing.
    pub fn new(policy: ClipboardPolicy, provider: ClipboardProvider) -> (worker: Self)
        ensures
            worker.history_of().policy_of() == policy,
            worker.history_of().items_of().len() == 0,
            worker.history_of().bounded(),
            worker.owned_of() is None,
            worker.error_of() is None,
            worker.provider_of() == provider,
    {
        ClipboardWorker {
            history: HistoryStore::new(policy),
            provider,
            last_owned: None,
            last_observed: None,
            last_error: None,
        }
    }

    /// The redacted state at `now` with the given lifecycle.
    pub fn snapshot(&self, lifecycle: ClipboardLifecycle, now: u64) -> (snapshot: ClipboardSnapshot)
        ensures
            snapshot.lifecycle == lifecycle,
            snapshot.provider == Some(self.provider_of()),
            snapshot.last_error == self.error_of(),
            snapshot.items@ == self.history_of().items_of().map_values(|item: StoredItem| metadata_of(item, now)),
    {
        self.history.snapshot(lifecycle, Some(self.provider), copy_text(&self.last_error), now)
    }

    /// Gives up the selection Kestrel owns and returns it: the only text a
    /// wipe asks the clipboard to clear, and only while the clipboard still
    /// holds it.
    pub fn release_owned(&mut self) -> (released: Option<String>)
        ensures
            released == old(self).owned_of(),
            final(self).owned_of() is None,
            final(self).history_of() == old(self).history_of(),
            final(self).observed_of() == old(self).observed_of(),
            final(self).error_of() == old(self).error_of(),
            final(self).provider_of() == old(self).provider_of(),
    {
        let mut released: Option<String> = None;
        std::mem::swap(&mut released, &mut self.last_owned);
        released
    }

    /// Releases the selection Kestrel owns (only while it still holds what
    /// Kestrel wrote) and erases the history.
    pub fn wipe_owned<B: ClipboardBackend>(&mut self, backend: &mut B)
        ensures
            final(self).history_of().items_of().len() == 0,
            final(self).history_of().wipes_of() == saturating_increment(old(self).history_of().wipes_of()),
            final(self).history_of().policy_of() == old(self).history_of().policy_of(),
            final(self).history_of().bounded(),
            final(self).owned_of() is None,
            final(self).provider_of() == old(self).provider_of(),
    {
        match self.release_owned() {
            Some(mut text) => {
                match backend.clear_if_matches(text.as_str()) {
                    Ok(_) => {},
                    Err(error) => {
                        self.last_error = Some(error.message);
                    },
                }
                erase_text(&mut text);
            },
            None => {},
        }
        self.history.wipe();
        match backend.read_text() {
            Ok(Some(content)) => {
                self.last_observed = Some(content);
            },
            Ok(None) => {
                self.last_observed = None;
            },
            Err(error) => {
                self.last_observed = None;
                self.last_error = Some(error.message);
            },
        }
    }

    /// Reacts to the privacy events of one poll: any event, or a failed
    /// monitor, wipes the history; a failed monitor also ends the worker with
    /// an unavailable snapshot.
    pub fn handle_privacy<B: ClipboardBackend>(
        &mut self,
        backend: &mut B,
        events: Result<Vec<SessionPrivacyEvent>, ClipboardError>,
        now: u64,
    ) -> (ended: Option<ClipboardSnapshot>)
        ensures
            final(self).history_of().policy_of() == old(self).history_of().policy_of(),
            final(self).provider_of() == old(self).provider_of(),
            old(self).history_of().bounded() ==> final(self).history_of().bounded(),
            match events {
                Ok(list) => ended is None && if list@.len() == 0 {
                    *final(self) == *old(self)
                } else {
                    final(self).history_of().items_of().len() == 0 && final(self).owned_of() is None
                },
                Err(error) => {
                    &&& final(self).history_of().items_of().len() == 0
                    &&& final(self).owned_of() is None
                    &&& ended matches Some(snapshot) && snapshot.lifecycle == ClipboardLifecycle::Unavailable
                        && snapshot.items@.len() == 0
                },
            },
    {
        match events {
            Ok(list) => {
                if list.len() > 0 {
                    self.wipe_owned(backend);
                }
                None
            },
            Err(error) => {
                self.last_error = Some(error.message);
                self.wipe_owned(backend);
                Some(self.snapshot(ClipboardLifecycle::Unavailable, now))
            },
        }
    }

    /// The first half of a poll: prunes the history and looks at what the
    /// clipboard held. A selection that differs from the last one seen
    /// becomes the last seen; if it is non-empty and within the size limit it
    /// is returned, to be written back so that Kestrel takes it over; an
    /// oversized one is only counted. An empty clipboard is remembered as
    /// such, and a failed read is recorded.
    pub fn take_selection(&mut self, read: Result<Option<String>, ClipboardError>, now: u64) -> (take_over: Option<String>)
        ensures
            final(self).history_of().policy_of() == old(self).history_of().policy_of(),
            final(self).history_of().wipes_of() == old(self).history_of().wipes_of(),
            final(self).history_of().next_id_of() == old(self).history_of().next_id_of(),
            final(self).provider_of() == old(self).provider_of(),
            final(self).owned_of() == old(self).owned_of(),
            old(self).history_of().bounded() ==> final(self).history_of().bounded(),
            final(self).history_of().items_of() == pruned(
                old(self).history_of().items_of(),
                now,
                old(self).history_of().policy_of().max_age_millis,
            ),
            match read {
                Ok(Some(content)) => if old(self).observed_of() != Some(content@) {
                    let within = content@.len() > 0 && text_bytes(content@) <= old(self).history_of().policy_of().max_item_bytes;
                    &&& final(self).observed_of() == Some(content@)
                    &&& final(self).error_of() == old(self).error_of()
                    &&& within ==> take_over == Some(content)
                        && final(self).history_of().rejected_of() == old(self).history_of().rejected_of()
                    &&& !within ==> take_over is None && final(self).history_of().rejected_of() == (if content@.len() == 0 {
                        old(self).history_of().rejected_of()
                    } else {
                        saturating_increment(old(self).history_of().rejected_of())
                    })
                } else {
                    &&& take_over is None
                    &&& final(self).observed_of() == old(self).observed_of()
                    &&& final(self).error_of() == old(self).error_of()
                    &&& final(self).history_of().rejected_of() == old(self).history_of().rejected_of()
                },
                Ok(None) => take_over is None && final(self).observed_of() is None
                    && final(self).error_of() == old(self).error_of()
                    && final(self).history_of().rejected_of() == old(self).history_of().rejected_of(),
                Err(error) => take_over is None && final(self).observed_of() == old(self).observed_of()
                    && final(self).error_of() == Some(error.message)
                    && final(self).history_of().rejected_of() == old(self).history_of().rejected_of(),
            },
    {
        self.history.prune(now);
        match read {
            Ok(Some(content)) => {
                let fresh = match &self.last_observed {
                    None => true,
                    Some(observed) => !str_equal(observed.as_str(), content.as_str()),
                };
                if !fresh {
                    return None;
                }
                self.last_observed = Some(content.clone());
                if content.as_str().len() <= self.history.policy.max_item_bytes && !content.as_str().is_empty() {
                    Some(content)
                } else {
                    proof {
                        lemma_pruned_idempotent(old(self).history.items_of(), now, self.history.policy_of().max_age_millis);
                    }
                    self.history.capture(content, now);
                    None
                }
            },
            Ok(None) => {
                self.last_observed = None;
                None
            },
            Err(error) => {
                self.last_error = Some(error.message);
                None
            },
        }
    }

    /// The second half of a poll, once the selection was written back: on
    /// success it is captured, Kestrel owns it unless it repeats the newest
    /// item, and the last failure is cleared; a failed write is recorded and
    /// nothing is captured.
    pub fn record_take_over(&mut self, content: String, written: Result<(), ClipboardError>, now: u64)
        requires
            content@.len() > 0,
            text_bytes(content@) <= old(self).history_of().policy_of().max_item_bytes,
        ensures
            final(self).history_of().policy_of() == old(self).history_of().policy_of(),
            final(self).history_of().wipes_of() == old(self).history_of().wipes_of(),
            final(self).history_of().rejected_of() == old(self).history_of().rejected_of(),
            final(self).provider_of() == old(self).provider_of(),
            final(self).observed_of() == old(self).observed_of(),
            old(self).history_of().bounded() ==> final(self).history_of().bounded(),
            match written {
                Ok(()) => {
                    let kept = pruned(old(self).history_of().items_of(), now, old(self).history_of().policy_of().max_age_millis);
                    &&& final(self).error_of() is None
                    &&& if kept.len() > 0 && kept.last().content@ == content@ {
                        final(self).history_of().items_of() == kept && final(self).owned_of() == old(self).owned_of()
                    } else {
                        &&& final(self).history_of().items_of() == newest(
                            kept.push(StoredItem { id: old(self).history_of().next_id_of(), captured_at_millis: now, content }),
                            old(self).history_of().policy_of().max_items as nat,
                        )
                        &&& final(self).owned_of() == Some(content)
                    }
                },
                Err(error) => final(self).history_of() == old(self).history_of() && final(self).owned_of() == old(self).owned_of()
                    && final(self).error_of() == Some(error.message),
            },
    {
        match written {
            Ok(()) => {
                let kept = content.clone();
                if self.history.capture(content, now) {
                    self.last_owned = Some(kept);
                }
                self.last_error = None;
            },
            Err(error) => {
                self.last_error = Some(error.message);
            },
        }
    }

    /// One poll of the clipboard: a new selection within the limits is taken
    /// over by Kestrel (written back, then captured and owned); an oversized
    /// or empty one is only counted or ignored.
    pub fn poll_clipboard<B: ClipboardBackend>(&mut self, backend: &mut B, now: u64) -> (snapshot: ClipboardSnapshot)
        ensures
            final(self).history_of().policy_of() == old(self).history_of().policy_of(),
            final(self).provider_of() == old(self).provider_of(),
            old(self).history_of().bounded() ==> final(self).history_of().bounded(),
            snapshot.lifecycle == ClipboardLifecycle::Running,
            snapshot.provider == Some(old(self).provider_of()),
            snapshot.items@ == final(self).history_of().items_of().map_values(|item: StoredItem| metadata_of(item, now)),
    {
        let read = backend.read_text();
        match self.take_selection(read, now) {
            Some(content) => {
                let written = backend.write_text(content.as_str());
                self.record_take_over(content, written, now);
            },
            None => {},
        }
        self.snapshot(ClipboardLifecycle::Running, now)
    }

    /// Carries out a user command and returns the resulting state.
    pub fn execute<B: ClipboardBackend>(
        &mut self,
        command: ClipboardCommand,
        backend: &mut B,
        now: u64,
    ) -> (result: Result<ClipboardSnapshot, ClipboardServiceError>)
        ensures
            final(self).history_of().policy_of() == old(self).history_of().policy_of(),
            final(self).provider_of() == old(self).provider_of(),
            old(self).history_of().bounded() ==> final(self).history_of().bounded(),
            result matches Ok(snapshot) ==> snapshot.lifecycle == ClipboardLifecycle::Running
                && snapshot.items@ == final(self).history_of().items_of().map_values(|item: StoredItem| metadata_of(item, now)),
            command matches ClipboardCommand::SelectItem { item_id } ==> ((forall|i: int|
                0 <= i < old(self).history_of().items_of().len() ==> (#[trigger] old(self).history_of().items_of()[i]).id != item_id)
                <==> result == Err::<ClipboardSnapshot, ClipboardServiceError>(ClipboardServiceError::UnknownItem { item_id })),
            command matches ClipboardCommand::SelectItem { .. } && result is Err ==> *final(self) == *old(self),
            command is Wipe ==> result is Ok && final(self).history_of().items_of().len() == 0
                && final(self).owned_of() is None,
            command is Refresh ==> result is Ok,
    {
        match command {
            ClipboardCommand::Refresh => {},
            ClipboardCommand::SelectItem { item_id } => {
                let content = match self.history.content(item_id) {
                    Some(content) => content,
                    None => {
                        return Err(ClipboardServiceError::UnknownItem { item_id });
                    },
                };
                proof {
                    let i = choose|i: int|
                        0 <= i < self.history.items_of().len() && (#[trigger] self.history.items_of()[i]).id == item_id
                            && self.history.items_of()[i].content == content;
                    assert(old(self).history_of().items_of()[i].id == item_id);
                }
                match backend.write_text(content.as_str()) {
                    Ok(()) => {},
                    Err(error) => {
                        return Err(ClipboardServiceError::Backend(error));
                    },
                }
                self.last_observed = Some(content.clone());
                self.last_owned = Some(content);
                self.last_error = None;
            },
            ClipboardCommand::Wipe => {
                self.wipe_owned(backend);
            },
        }
        self.history.prune(now);
        Ok(self.snapshot(ClipboardLifecycle::Running, now))
    }

    /// Releases what Kestrel owns, erases the history, and reports the
    /// stopped state.
    pub fn stop<B: ClipboardBackend>(&mut self, backend: &mut B, now: u64) -> (snapshot: ClipboardSnapshot)
        ensures
            final(self).history_of().items_of().len() == 0,
            final(self).owned_of() is None,
            snapshot.lifecycle == ClipboardLifecycle::Stopped,
            snapshot.provider is None,
            snapshot.items@.len() == 0,
            snapshot.total_bytes == 0,
    {
        self.wipe_owned(backend);
        let snapshot = self.history.snapshot(ClipboardLifecycle::Stopped, None, copy_text(&self.last_error), now);
        assert(snapshot.items@.len() == 0);
        snapshot
    }
}

} // verus!

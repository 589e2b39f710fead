//! A collection whose items are removed through detached tokens.
use vstd::prelude::*;

verus! {

/// A vector that owns a bunch of objects.
/// Every object is connected to a token; handing the token back
/// removes the object from the collection in constant time.
///
/// Note that the token does not keep the object alive, it is only responsible
/// for triggering its removal.
pub struct RemotelyDroppableItems<T> {
    /// The identity of this collection, carried by each of its tokens.
    collection: usize,
    items: Vec<T>,
    /// The token key of the item at each position.
    keys: Vec<usize>,
    /// The current position of the item of each token key, if it is still present.
    offsets: Vec<Option<usize>>,
}

/// The token of one item of a [`RemotelyDroppableItems`] collection.
pub struct RemoteDrop {
    collection: usize,
    key: usize,
}

impl RemoteDrop {
    /// The identity of the collection that handed out this token.
    pub closed spec fn spec_collection(&self) -> usize {
        self.collection
    }

    /// The key that identifies the item of this token.
    pub closed spec fn spec_key(&self) -> usize {
        self.key
    }
}

impl<T> View for RemotelyDroppableItems<T> {
    type V = Map<usize, T>;

    /// The present items, each under the key of its token.
    closed spec fn view(&self) -> Map<usize, T> {
        Map::new(
            |k: usize| k < self.offsets@.len() && self.offsets@[k as int] is Some,
            |k: usize| self.items@[self.offsets@[k as int]->0 as int],
        )
    }
}

impl<T> RemotelyDroppableItems<T> {
    /// The identity of this collection.
    pub closed spec fn spec_collection(&self) -> usize {
        self.collection
    }

    /// Whether `token` was handed out by this collection (or by another
    /// one with the same identity).
    pub open spec fn owns(&self, token: RemoteDrop) -> bool {
        token.spec_collection() == self.spec_collection()
    }

    /// The number of tokens ever handed out; every new token gets this key.
    pub closed spec fn spec_next_key(&self) -> nat {
        self.offsets@.len()
    }

    /// The items in their current storage order.
    pub closed spec fn spec_items(&self) -> Seq<T> {
        self.items@
    }

    /// The item stored at position `p` is present in the view under some key.
    pub open spec fn spec_keys_of(&self, p: int) -> bool {
        exists|k: usize| #[trigger] self@.contains_key(k) && self@[k] == self.spec_items()[p]
    }

    /// The positions and the key table agree with each other.
    pub closed spec fn wf(&self) -> bool {
        &&& self.keys@.len() == self.items@.len()
        &&& forall|p: int|
            0 <= p < self.items@.len() ==> {
                &&& #[trigger] self.keys@[p] < self.offsets@.len()
                &&& self.offsets@[self.keys@[p] as int] matches Some(q) && q == p
            }
        &&& forall|k: int|
            0 <= k < self.offsets@.len() ==> (#[trigger] self.offsets@[k] matches Some(p) ==> p
                < self.items@.len() && self.keys@[p as int] == k)
    }

    /// Law: every present key was handed out before.
    pub proof fn law_present_keys_were_handed_out(&self)
        requires
            self.wf(),
        ensures
            forall|k: usize| #[trigger] self@.contains_key(k) ==> k < self.spec_next_key(),
    {
    }

    /// Law: the stored items are exactly the present ones: every present item
    /// is stored, and every stored item is present under some key.
    pub proof fn law_items_match_view(&self)
        requires
            self.wf(),
        ensures
            forall|k: usize| #[trigger]
                self@.contains_key(k) ==> self.spec_items().contains(self@[k]),
            forall|p: int|
                0 <= p < self.spec_items().len() ==> #[trigger] self.spec_keys_of(p),
    {
        assert forall|k: usize| #[trigger] self@.contains_key(k) implies self.spec_items().contains(
            self@[k],
        ) by {
            let p = self.offsets@[k as int]->0 as int;
            assert(self.items@[p] == self@[k]);
        }
        assert forall|p: int| 0 <= p < self.spec_items().len() implies #[trigger] self.spec_keys_of(p) by {
            let k = self.keys@[p];
            assert(k < self.offsets@.len());
            assert(self.offsets@[k as int] matches Some(q) && q == p);
            assert(self@.dom().contains(k));
            assert(self@[k] == self.items@[p]);
        }
    }

    /// Creates an empty collection with the identity `collection`.
    ///
    /// Tokens carry the identity of their collection; a collection ignores
    /// tokens of other identities. Give each collection its own identity.
    pub fn new(collection: usize) -> (items: Self)
        ensures
            items.wf(),
            items@ == Map::<usize, T>::empty(),
            items.spec_next_key() == 0,
            items.spec_collection() == collection,
    {
        let items = RemotelyDroppableItems {
            collection,
            items: Vec::new(),
            keys: Vec::new(),
            offsets: Vec::new(),
        };
        assert(items@ =~= Map::<usize, T>::empty());
        items
    }

    /// The number of present items.
    pub fn len(&self) -> (n: usize)
        requires
            self.wf(),
        ensures
            n == self.spec_items().len(),
    {
        self.items.len()
    }

    /// Inserts an item and returns the token that removes it again.
    pub fn insert(&mut self, item: T) -> (token: RemoteDrop)
        requires
            old(self).wf(),
        ensures
            final(self).wf(),
            final(self).spec_collection() == old(self).spec_collection(),
            old(self).owns(token),
            token.spec_key() == old(self).spec_next_key(),
            !old(self)@.contains_key(token.spec_key()),
            final(self)@ == old(self)@.insert(token.spec_key(), item),
            final(self).spec_next_key() == old(self).spec_next_key() + 1,
            final(self).spec_items() == old(self).spec_items().push(item),
    {
        let ghost old_self = *self;
        let key = self.offsets.len();
        let position = self.items.len();
        self.offsets.push(Some(position));
        self.items.push(item);
        self.keys.push(key);
        proof {
            assert forall|p: int| 0 <= p < self.items@.len() implies {
                &&& #[trigger] self.keys@[p] < self.offsets@.len()
                &&& self.offsets@[self.keys@[p] as int] matches Some(q) && q == p
            } by {
                if p < position {
                    assert(old_self.keys@[p] == self.keys@[p]);
                }
            }
            assert forall|k: int| 0 <= k < self.offsets@.len() implies (#[trigger] self.offsets@[k] matches Some(
                p,
            ) ==> p < self.items@.len() && self.keys@[p as int] == k) by {
                if k < key {
                    assert(old_self.offsets@[k] == self.offsets@[k]);
                }
            }
            assert(self@ =~= old_self@.insert(key, item)) by {
                assert forall|k: usize| #[trigger] self@.contains_key(k) implies self@[k] == old_self@.insert(
                    key,
                    item,
                )[k] by {
                    if k < key {
                        assert(old_self.offsets@[k as int] == self.offsets@[k as int]);
                    }
                }
            }
        }
        RemoteDrop { collection: self.collection, key }
    }

    /// Removes the item of the given token, if it is still present, and
    /// returns it. A token of another collection removes nothing.
    pub fn remove(&mut self, token: RemoteDrop) -> (removed: Option<T>)
        requires
            old(self).wf(),
        ensures
            final(self).wf(),
            final(self).spec_collection() == old(self).spec_collection(),
            final(self)@ == if old(self).owns(token) {
                old(self)@.remove(token.spec_key())
            } else {
                old(self)@
            },
            final(self).spec_next_key() == old(self).spec_next_key(),
            removed == if old(self).owns(token) && old(self)@.contains_key(token.spec_key()) {
                Some(old(self)@[token.spec_key()])
            } else {
                None
            },
    {
        let ghost old_self = *self;
        if token.collection != self.collection {
            return None;
        }
        let key = token.key;
        if key >= self.offsets.len() {
            assert(self@ =~= old_self@.remove(key));
            return None;
        }
        match self.offsets[key] {
            None => {
                assert(self@ =~= old_self@.remove(key));
                None
            },
            Some(off) => {
                let last = self.items.len() - 1;
                let removed = self.items.swap_remove(off);
                self.keys.swap_remove(off);
                let ghost moved_key = old_self.keys@[last as int];
                if off < last {
                    let moved = self.keys[off];
                    self.offsets.set(moved, Some(off));
                }
                self.offsets.set(key, None);
                proof {
                    assert(old_self.keys@[off as int] == key);
                    assert forall|p: int| 0 <= p < self.items@.len() implies {
                        &&& #[trigger] self.keys@[p] < self.offsets@.len()
                        &&& self.offsets@[self.keys@[p] as int] matches Some(q) && q == p
                    } by {
                        if p != off {
                            assert(self.keys@[p] == old_self.keys@[p]);
                            assert(old_self.offsets@[old_self.keys@[p] as int] matches Some(q) && q == p);
                        }
                    }
                    assert forall|k: int| 0 <= k < self.offsets@.len() implies (#[trigger] self.offsets@[k] matches Some(
                        p,
                    ) ==> p < self.items@.len() && self.keys@[p as int] == k) by {
                        if k != key && k != moved_key {
                            assert(self.offsets@[k] == old_self.offsets@[k]);
                        }
                    }
                    assert(self@ =~= old_self@.remove(key)) by {
                        assert forall|k: usize| #[trigger] self@.contains_key(k) implies self@[k]
                            == old_self@.remove(key)[k] by {
                            if k != moved_key {
                                assert(self.offsets@[k as int] == old_self.offsets@[k as int]);
                            }
                        }
                        assert forall|k: usize| #[trigger] old_self@.remove(key).contains_key(k) implies self@.contains_key(k) by {
                            if k != moved_key {
                                assert(self.offsets@[k as int] == old_self.offsets@[k as int]);
                            }
                        }
                    }
                }
                Some(removed)
            },
        }
    }

    /// Consumes the collection and returns the present items.
    pub fn into_items(self) -> (items: Vec<T>)
        requires
            self.wf(),
        ensures
            items@ == self.spec_items(),
    {
        self.items
    }
}

/// Law: inserting an item under a fresh key and removing that key again
/// gives back the collection as it was.
pub proof fn law_insert_then_remove_restores<T>(before: Map<usize, T>, key: usize, item: T)
    requires
        !before.contains_key(key),
    ensures
        before.insert(key, item).remove(key) == before,
        before.insert(key, item)[key] == item,
{
    assert(before.insert(key, item).remove(key) =~= before);
}

/// Law: after a token removed its item, removing with the same key again
/// finds nothing, and the other items are untouched.
pub proof fn law_remove_is_idempotent<T>(before: Map<usize, T>, key: usize)
    ensures
        !before.remove(key).contains_key(key),
        before.remove(key).remove(key) == before.remove(key),
        forall|k: usize| k != key && before.contains_key(k) ==> #[trigger] before.remove(key).contains_key(k) && before.remove(key)[k] == before[k],
{
    assert(before.remove(key).remove(key) =~= before.remove(key));
}

/// One change to a collection: inserting an item, or removing with a
/// token, given by the identity of its collection and its key.
pub enum ItemChange<T> {
    /// `insert` of the item; the new token gets the next key.
    Insert(T),
    /// `remove` with the token of the given collection and key.
    Remove(usize, usize),
}

/// The present items and the next key after applying `changes`, in order,
/// to the collection `collection` whose present items are `items` and whose
/// next key is `next_key`, as `insert` and `remove` state it.
pub open spec fn after_changes<T>(
    collection: usize,
    items: Map<usize, T>,
    next_key: nat,
    changes: Seq<ItemChange<T>>,
) -> (Map<usize, T>, nat)
    decreases changes.len(),
{
    if changes.len() == 0 {
        (items, next_key)
    } else {
        let (items, next_key) = after_changes(collection, items, next_key, changes.drop_last());
        match changes.last() {
            ItemChange::Insert(item) => (items.insert(next_key as usize, item), next_key + 1),
            ItemChange::Remove(owner, key) => if owner == collection {
                (items.remove(key), next_key)
            } else {
                (items, next_key)
            },
        }
    }
}

/// Law: an item stays in the collection, under its key, through any number
/// of inserts, of removals with its collection's other tokens and of
/// removals with tokens of other collections; once removed, a key never
/// comes back, because inserts only hand out keys from the next key on.
pub proof fn law_item_lives_until_its_token_removes_it<T>(
    collection: usize,
    items: Map<usize, T>,
    next_key: nat,
    changes: Seq<ItemChange<T>>,
    key: usize,
)
    requires
        next_key + changes.len() <= usize::MAX + 1,
        forall|k: usize| #[trigger] items.contains_key(k) ==> k < next_key,
        key < next_key,
    ensures
        items.contains_key(key) && (forall|i: int|
            0 <= i < changes.len() ==> #[trigger] changes[i] != ItemChange::<T>::Remove(collection, key))
            ==> after_changes(collection, items, next_key, changes).0.contains_key(key)
            && after_changes(collection, items, next_key, changes).0[key] == items[key],
        !items.contains_key(key) ==> !after_changes(collection, items, next_key, changes).0.contains_key(key),
        forall|k: usize| #[trigger]
            after_changes(collection, items, next_key, changes).0.contains_key(k) ==> k < after_changes(
                collection,
                items,
                next_key,
                changes,
            ).1,
        next_key <= after_changes(collection, items, next_key, changes).1 <= next_key + changes.len(),
    decreases changes.len(),
{
    if changes.len() > 0 {
        let prefix = changes.drop_last();
        law_item_lives_until_its_token_removes_it(collection, items, next_key, prefix, key);
        assert forall|i: int| 0 <= i < prefix.len() implies prefix[i] == changes[i] by {}
        let (m, n) = after_changes(collection, items, next_key, prefix);
        assert(n < next_key + changes.len());
        match changes.last() {
            ItemChange::Insert(item) => {
                assert(after_changes(collection, items, next_key, changes) == (m.insert(n as usize, item), n + 1));
                assert forall|k: usize| #[trigger] m.insert(n as usize, item).contains_key(k) implies k < n + 1 by {
                    if k != n as usize {
                        assert(m.contains_key(k));
                    }
                }
            },
            ItemChange::Remove(owner, k) => {
                assert(changes[changes.len() - 1] == ItemChange::<T>::Remove(owner, k));
                if owner == collection {
                    assert(after_changes(collection, items, next_key, changes) == (m.remove(k), n));
                } else {
                    assert(after_changes(collection, items, next_key, changes) == (m, n));
                }
            },
        }
    }
}

} // verus!

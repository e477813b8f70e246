//! An issuer's public keys, by key identifier.

use vstd::prelude::*;
use vstd::string::StringExecFns;
use crate::error::UpstreamFetchFailure;
use crate::jwt::{rsa_components_ok, rsa_components_readable};
use crate::text::text_view;

verus! {

/// Where an issuer publishes its key set, below its own URL.
pub const KEY_SET_PATH: &'static str = "/.well-known/jwks.json";

/// How often the download of a key set is tried again after a failure that
/// may pass.
pub const KEY_SET_RETRIES: u32 = 3;

/// The URL of an issuer's key set.
pub fn key_set_url(issuer: &str) -> (url: String)
    ensures
        url@ == issuer@ + KEY_SET_PATH@,
{
    issuer.to_owned().concat(KEY_SET_PATH)
}

/// The modulus and the public exponent of an RSA key, each as the
/// base64url string of a key-set document.
#[derive(Clone, Debug, PartialEq, Eq)]
pub struct RsaComponents {
    pub modulus: String,
    pub exponent: String,
}

/// The components of an RSA key as values.
pub ghost struct RsaView {
    pub modulus: Seq<char>,
    pub exponent: Seq<char>,
}

impl View for RsaComponents {
    type V = RsaView;

    open spec fn view(&self) -> RsaView {
        RsaView { modulus: self.modulus@, exponent: self.exponent@ }
    }
}

/// One key of a key-set document: its identifier, if it declares one, and
/// its RSA components, if it is an RSA key.
#[derive(Clone, Debug, PartialEq, Eq)]
pub struct JwkEntry {
    pub key_id: Option<String>,
    pub rsa: Option<RsaComponents>,
}

/// A key of a key-set document as values.
pub ghost struct JwkEntryView {
    pub key_id: Option<Seq<char>>,
    pub rsa: Option<RsaView>,
}

impl View for JwkEntry {
    type V = JwkEntryView;

    open spec fn view(&self) -> JwkEntryView {
        JwkEntryView {
            key_id: text_view(self.key_id),
            rsa: match self.rsa {
                Some(rsa) => Some(rsa@),
                None => None,
            },
        }
    }
}

/// The keys of a list as values, in the order of the list.
pub open spec fn entries_view(entries: Seq<JwkEntry>) -> Seq<JwkEntryView> {
    entries.map_values(|entry: JwkEntry| entry@)
}

/// The keys of a key-set document in the order in which it lists them;
/// `None` where the bytes are no such document.
pub uninterp spec fn key_set_entries(document: Seq<u8>) -> Option<Seq<JwkEntryView>>;

/// `serde_json::from_slice` for a `jsonwebtoken::jwk::JwkSet`, each key of
/// which is then given as its `kid` and, for an RSA key, its `n` and `e`.
#[verifier::external_body]
fn read_key_set(document: &[u8]) -> (r: Result<Vec<JwkEntry>, serde_json::Error>)
    ensures
        r is Ok <==> key_set_entries(document@) is Some,
        r is Ok ==> key_set_entries(document@) == Some(entries_view(r->Ok_0@)),
{
    let set: jsonwebtoken::jwk::JwkSet = serde_json::from_slice(document)?;
    Ok(set.keys.into_iter().map(|jwk| JwkEntry {
        key_id: jwk.common.key_id,
        rsa: match jwk.algorithm {
            jsonwebtoken::jwk::AlgorithmParameters::RSA(rsa) => Some(RsaComponents { modulus: rsa.n, exponent: rsa.e }),
            _ => None,
        },
    }).collect())
}

/// Whether an entry is kept: it is an RSA key with an identifier.
pub open spec fn is_kept(entry: JwkEntryView) -> bool {
    entry.key_id is Some && entry.rsa is Some
}

/// The keys that a list of entries yields: the kept ones by identifier, a
/// later entry replacing an earlier one of the same identifier.
pub open spec fn retained(entries: Seq<JwkEntryView>) -> Map<Seq<char>, RsaView>
    decreases entries.len(),
{
    if entries.len() == 0 {
        Map::empty()
    } else {
        let rest = retained(entries.drop_last());
        let last = entries.last();
        if is_kept(last) {
            rest.insert(last.key_id->0, last.rsa->0)
        } else {
            rest
        }
    }
}

/// Whether every kept entry can be read as an RSA public key.
pub open spec fn all_readable(entries: Seq<JwkEntryView>) -> bool {
    forall|i: int| 0 <= i < entries.len() && is_kept(#[trigger] entries[i]) ==>
        rsa_components_readable(entries[i].rsa->0.modulus, entries[i].rsa->0.exponent)
}

/// What a list of entries comes to: its keys, or the reason why it gives
/// no key set.
pub open spec fn assembled(entries: Seq<JwkEntryView>) -> Result<Map<Seq<char>, RsaView>, UpstreamFetchFailure> {
    if !all_readable(entries) {
        Err(UpstreamFetchFailure::UnusableKey)
    } else if retained(entries).dom() =~= Set::empty() {
        Err(UpstreamFetchFailure::NoUsableKeys)
    } else {
        Ok(retained(entries))
    }
}

/// What a key-set document comes to: the keys of its entries, or the
/// reason why it gives no key set.
pub open spec fn key_set_of(document: Seq<u8>) -> Result<Map<Seq<char>, RsaView>, UpstreamFetchFailure> {
    match key_set_entries(document) {
        Some(entries) => assembled(entries),
        None => Err(UpstreamFetchFailure::Malformed),
    }
}

struct Slot {
    key_id: String,
    key: RsaComponents,
}

spec fn holds(slots: Seq<Slot>, key_id: Seq<char>) -> bool {
    exists|i: int| 0 <= i < slots.len() && #[trigger] slots[i].key_id@ == key_id
}

spec fn position(slots: Seq<Slot>, key_id: Seq<char>) -> int {
    choose|i: int| 0 <= i < slots.len() && #[trigger] slots[i].key_id@ == key_id
}

spec fn distinct(slots: Seq<Slot>) -> bool {
    forall|i: int, j: int| 0 <= i < j < slots.len() ==> #[trigger] slots[i].key_id@ != #[trigger] slots[j].key_id@
}

spec fn as_map(slots: Seq<Slot>) -> Map<Seq<char>, RsaView> {
    Map::new(|key_id: Seq<char>| holds(slots, key_id), |key_id: Seq<char>| slots[position(slots, key_id)].key@)
}

proof fn lemma_slot_is_mapped(slots: Seq<Slot>, i: int)
    requires
        distinct(slots),
        0 <= i < slots.len(),
    ensures
        as_map(slots).contains_key(slots[i].key_id@),
        as_map(slots)[slots[i].key_id@] == slots[i].key@,
{
    assert(position(slots, slots[i].key_id@) == i);
}

proof fn lemma_push_inserts(slots: Seq<Slot>, slot: Slot)
    requires
        distinct(slots),
        !holds(slots, slot.key_id@),
    ensures
        distinct(slots.push(slot)),
        as_map(slots.push(slot)) =~= as_map(slots).insert(slot.key_id@, slot.key@),
{
    let grown = slots.push(slot);
    assert forall|key_id: Seq<char>| holds(grown, key_id) <==> (holds(slots, key_id) || key_id == slot.key_id@) by {
        if holds(slots, key_id) {
            assert(grown[position(slots, key_id)].key_id@ == key_id);
        }
        if key_id == slot.key_id@ {
            assert(grown[slots.len() as int].key_id@ == key_id);
        }
    }
    assert forall|key_id: Seq<char>| holds(grown, key_id) implies #[trigger] as_map(grown)[key_id] == as_map(slots).insert(
        slot.key_id@,
        slot.key@,
    )[key_id] by {
        if key_id == slot.key_id@ {
            lemma_slot_is_mapped(grown, slots.len() as int);
        } else {
            lemma_slot_is_mapped(grown, position(slots, key_id));
        }
    }
}

proof fn lemma_update_inserts(slots: Seq<Slot>, at: int, slot: Slot)
    requires
        distinct(slots),
        0 <= at < slots.len(),
        slots[at].key_id@ == slot.key_id@,
    ensures
        distinct(slots.update(at, slot)),
        as_map(slots.update(at, slot)) =~= as_map(slots).insert(slot.key_id@, slot.key@),
{
    let changed = slots.update(at, slot);
    assert forall|key_id: Seq<char>| holds(changed, key_id) <==> (holds(slots, key_id) || key_id == slot.key_id@) by {
        if holds(slots, key_id) {
            let i = position(slots, key_id);
            assert(changed[i].key_id@ == slots[i].key_id@);
        }
    }
    assert forall|key_id: Seq<char>| holds(changed, key_id) implies #[trigger] as_map(changed)[key_id] == as_map(slots).insert(
        slot.key_id@,
        slot.key@,
    )[key_id] by {
        if key_id == slot.key_id@ {
            lemma_slot_is_mapped(changed, at);
        } else {
            lemma_slot_is_mapped(changed, position(slots, key_id));
        }
    }
}

/// Where `key_id` stands among the slots, if it does.
fn find(slots: &Vec<Slot>, key_id: &String) -> (found: Option<usize>)
    ensures
        match found {
            Some(i) => i < slots.len() && slots[i as int].key_id@ == key_id@,
            None => !holds(slots@, key_id@),
        },
{
    let mut i: usize = 0;
    while i < slots.len()
        invariant
            i <= slots.len(),
            forall|j: int| 0 <= j < i ==> #[trigger] slots[j].key_id@ != key_id@,
        decreases slots.len() - i,
    {
        if slots[i].key_id == *key_id {
            return Some(i);
        }
        i += 1;
    }
    None
}

spec fn readable(slots: Seq<Slot>) -> bool {
    forall|i: int| 0 <= i < slots.len() ==>
        rsa_components_readable((#[trigger] slots[i]).key.modulus@, slots[i].key.exponent@)
}

proof fn lemma_readable_step(entries: Seq<JwkEntryView>, i: int)
    requires
        0 <= i < entries.len(),
        all_readable(entries.take(i)),
        is_kept(entries[i]) ==> rsa_components_readable(entries[i].rsa->0.modulus, entries[i].rsa->0.exponent),
    ensures
        all_readable(entries.take(i + 1)),
{
    assert forall|j: int| 0 <= j < i + 1 && is_kept(#[trigger] entries.take(i + 1)[j]) implies rsa_components_readable(
        entries.take(i + 1)[j].rsa->0.modulus,
        entries.take(i + 1)[j].rsa->0.exponent,
    ) by {
        if j < i {
            assert(entries.take(i)[j] == entries.take(i + 1)[j]);
        }
    }
}

proof fn lemma_retained_step(entries: Seq<JwkEntryView>, i: int)
    requires
        0 <= i < entries.len(),
    ensures
        retained(entries.take(i + 1)) == if is_kept(entries[i]) {
            retained(entries.take(i)).insert(entries[i].key_id->0, entries[i].rsa->0)
        } else {
            retained(entries.take(i))
        },
{
    assert(entries.take(i + 1).drop_last() =~= entries.take(i));
}

/// The public keys of one issuer: at least one, each under its own
/// identifier, each readable as an RSA public key.
pub struct KeySet {
    slots: Vec<Slot>,
}

impl View for KeySet {
    type V = Map<Seq<char>, RsaView>;

    closed spec fn view(&self) -> Map<Seq<char>, RsaView> {
        as_map(self.slots@)
    }
}

/// The keys of an assembled key set, or the reason why there is none.
pub open spec fn assembly_view(r: Result<KeySet, UpstreamFetchFailure>) -> Result<Map<Seq<char>, RsaView>, UpstreamFetchFailure> {
    match r {
        Ok(keys) => Ok(keys@),
        Err(e) => Err(e),
    }
}

impl KeySet {
    #[verifier::type_invariant]
    spec fn well_formed(self) -> bool {
        &&& self.slots@.len() > 0
        &&& distinct(self.slots@)
        &&& readable(self.slots@)
    }

    /// Builds the key set that a list of entries yields. Entries that are
    /// no RSA keys, or declare no identifier, are passed over. A list that
    /// yields no key gives no key set.
    pub fn from_entries(entries: Vec<JwkEntry>) -> (r: Result<KeySet, UpstreamFetchFailure>)
        ensures
            assembly_view(r) == assembled(entries_view(entries@)),
    {
        let ghost listed = entries_view(entries@);
        let mut slots: Vec<Slot> = Vec::new();
        let mut i: usize = 0;
        while i < entries.len()
            invariant
                i <= entries.len(),
                listed == entries_view(entries@),
                distinct(slots@),
                readable(slots@),
                all_readable(listed.take(i as int)),
                as_map(slots@) == retained(listed.take(i as int)),
            decreases entries.len() - i,
        {
            proof {
                lemma_retained_step(listed, i as int);
            }
            let entry = &entries[i];
            match (&entry.key_id, &entry.rsa) {
                (Some(key_id), Some(rsa)) => {
                    if !rsa_components_ok(rsa.modulus.as_str(), rsa.exponent.as_str()) {
                        return Err(UpstreamFetchFailure::UnusableKey);
                    }
                    let slot = Slot {
                        key_id: key_id.clone(),
                        key: RsaComponents {
                            modulus: rsa.modulus.clone(),
                            exponent: rsa.exponent.clone(),
                        },
                    };
                    match find(&slots, key_id) {
                        Some(at) => {
                            proof {
                                lemma_update_inserts(slots@, at as int, slot);
                            }
                            slots.set(at, slot);
                        },
                        None => {
                            proof {
                                lemma_push_inserts(slots@, slot);
                            }
                            slots.push(slot);
                        },
                    }
                },
                _ => {},
            }
            proof {
                lemma_readable_step(listed, i as int);
            }
            i += 1;
        }
        proof {
            assert(listed.take(i as int) =~= listed);
        }
        if slots.len() == 0 {
            Err(UpstreamFetchFailure::NoUsableKeys)
        } else {
            proof {
                lemma_slot_is_mapped(slots@, 0);
            }
            Ok(KeySet { slots })
        }
    }

    /// Reads a key-set document and builds its key set.
    pub fn from_document(document: &[u8]) -> (r: Result<KeySet, UpstreamFetchFailure>)
        ensures
            assembly_view(r) == key_set_of(document@),
    {
        match read_key_set(document) {
            Ok(entries) => KeySet::from_entries(entries),
            Err(_) => Err(UpstreamFetchFailure::Malformed),
        }
    }

    /// The key with the given identifier, if the set holds one.
    pub fn get(&self, key_id: &str) -> (key: Option<&RsaComponents>)
        ensures
            match key {
                Some(found) => self@.contains_key(key_id@) && found@ == self@[key_id@]
                    && rsa_components_readable(found.modulus@, found.exponent@),
                None => !self@.contains_key(key_id@),
            },
    {
        proof {
            use_type_invariant(self);
        }
        let wanted = key_id.to_owned();
        match find(&self.slots, &wanted) {
            Some(at) => {
                proof {
                    lemma_slot_is_mapped(self.slots@, at as int);
                }
                Some(&self.slots[at].key)
            },
            None => None,
        }
    }

    /// How many keys the set holds; never none.
    pub fn len(&self) -> (n: usize)
        ensures
            n > 0,
            n == self@.dom().len(),
            self@.dom().finite(),
    {
        proof {
            use_type_invariant(self);
            lemma_domain_size(self.slots@);
        }
        self.slots.len()
    }
}

proof fn lemma_domain_size(slots: Seq<Slot>)
    requires
        distinct(slots),
    ensures
        as_map(slots).dom().finite(),
        as_map(slots).dom().len() == slots.len(),
    decreases slots.len(),
{
    if slots.len() == 0 {
        assert(as_map(slots).dom() =~= Set::empty());
    } else {
        let rest = slots.drop_last();
        let last = slots.last();
        assert(!holds(rest, last.key_id@)) by {
            if holds(rest, last.key_id@) {
                assert(slots[position(rest, last.key_id@)].key_id@ != slots[slots.len() - 1].key_id@);
            }
        }
        lemma_domain_size(rest);
        lemma_push_inserts(rest, last);
        assert(rest.push(last) =~= slots);
    }
}

} // verus!

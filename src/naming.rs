//! Naming keys: one per application name, found in the name service's list or
//! created when absent.

use vstd::prelude::*;
use crate::records::UpdateAppPayload;

verus! {

/// A naming key as the name service lists it.
pub struct KeyInfo {
    pub name: String,
    pub id: String,
}

/// A name published by the name service, and the path it resolves to.
pub struct PublishedName {
    pub name: String,
    pub value: String,
}

/// What to do for an application's naming key.
pub enum KeyStep {
    /// The listed key of that name.
    Use(KeyInfo),
    /// No key of that name is listed: create one under this name.
    Create(String),
}

impl KeyInfo {
    /// A field-for-field copy.
    pub fn copied(&self) -> (r: KeyInfo)
        ensures
            r == *self,
    {
        KeyInfo { name: self.name.clone(), id: self.id.clone() }
    }
}

/// The first listed key called `name`.
pub open spec fn key_for(keys: Seq<KeyInfo>, name: Seq<char>) -> Option<KeyInfo>
    decreases keys.len(),
{
    if keys.len() == 0 {
        None
    } else if keys[0].name@ == name {
        Some(keys[0])
    } else {
        key_for(keys.drop_first(), name)
    }
}

/// Finds the first listed key called `name`.
pub fn find_key(keys: &Vec<KeyInfo>, name: &String) -> (r: Option<KeyInfo>)
    ensures
        r == key_for(keys@, name@),
{
    let mut i: usize = 0;
    assert(keys@.subrange(0, keys@.len() as int) =~= keys@);
    while i < keys.len()
        invariant
            i <= keys@.len(),
            key_for(keys@, name@) == key_for(keys@.subrange(i as int, keys@.len() as int), name@),
        decreases keys@.len() - i,
    {
        let ghost rest = keys@.subrange(i as int, keys@.len() as int);
        assert(rest.drop_first() =~= keys@.subrange(i as int + 1, keys@.len() as int));
        assert(rest[0] == keys@[i as int]);
        if keys[i].name == *name {
            return Some(keys[i].copied());
        }
        i = i + 1;
    }
    assert(keys@.subrange(i as int, keys@.len() as int).len() == 0);
    None
}

/// The decision of find-or-create: use the listed key of the application's name, or
/// create one.
pub fn choose_key(keys: &Vec<KeyInfo>, app_name: &String) -> (r: KeyStep)
    ensures
        match key_for(keys@, app_name@) {
            Some(k) => r == KeyStep::Use(k),
            None => r == KeyStep::Create(*app_name),
        },
{
    match find_key(keys, app_name) {
        Some(k) => KeyStep::Use(k),
        None => KeyStep::Create(app_name.clone()),
    }
}

/// The update that records an application's naming key.
pub fn key_saved(key: &KeyInfo) -> (r: UpdateAppPayload)
    ensures
        r == (UpdateAppPayload { team_id: None, name: None, key_name: Some(key.name), ipns_name: None }),
{
    UpdateAppPayload { team_id: None, name: None, key_name: Some(key.name.clone()), ipns_name: None }
}

/// The key chosen for a name is found among the listed keys and carries that name.
pub proof fn lemma_key_for_named(keys: Seq<KeyInfo>, name: Seq<char>)
    ensures
        key_for(keys, name) matches Some(k) ==> k.name@ == name && keys.contains(k),
        key_for(keys, name) is None ==> forall|i: int| 0 <= i < keys.len() ==> #[trigger] keys[i].name@ != name,
    decreases keys.len(),
{
    if keys.len() > 0 {
        lemma_key_for_named(keys.drop_first(), name);
        if keys[0].name@ != name {
            if let Some(k) = key_for(keys, name) {
                let j = choose|j: int| 0 <= j < keys.drop_first().len() && keys.drop_first()[j] == k;
                assert(keys[j + 1] == k);
            } else {
                assert forall|i: int| 0 <= i < keys.len() implies #[trigger] keys[i].name@ != name by {
                    if i > 0 {
                        assert(keys[i] == keys.drop_first()[i - 1]);
                    }
                }
            }
        } else {
            assert(keys.contains(keys[0]));
        }
    }
}

/// Once a key of a name is listed, keys listed after it do not change the choice: a
/// lookup that found one keeps finding that one.
pub proof fn lemma_key_choice_stable(keys: Seq<KeyInfo>, later: Seq<KeyInfo>, name: Seq<char>)
    requires
        key_for(keys, name) is Some,
    ensures
        key_for(keys + later, name) == key_for(keys, name),
    decreases keys.len(),
{
    if keys[0].name@ != name {
        assert((keys + later).drop_first() =~= keys.drop_first() + later);
        lemma_key_choice_stable(keys.drop_first(), later, name);
    }
    assert((keys + later)[0] == keys[0]);
}

/// Two callers that both found no key of a name and both created one leave two keys
/// of that name in the list; every later lookup, whatever is listed after them,
/// settles on the first, so one key per name is what callers see.
pub proof fn lemma_concurrent_creation_converges(
    keys: Seq<KeyInfo>,
    first: KeyInfo,
    second: KeyInfo,
    later: Seq<KeyInfo>,
    name: Seq<char>,
)
    requires
        key_for(keys, name) is None,
        first.name@ == name,
        second.name@ == name,
    ensures
        key_for(keys.push(first).push(second) + later, name) == Some(first),
        key_for(keys.push(second).push(first) + later, name) == Some(second),
{
    lemma_key_for_named(keys, name);
    lemma_first_after_missing(keys, first, name);
    lemma_first_after_missing(keys, second, name);
    assert(keys.push(first).push(second) + later =~= keys.push(first) + (seq![second] + later));
    assert(keys.push(second).push(first) + later =~= keys.push(second) + (seq![first] + later));
    lemma_key_choice_stable(keys.push(first), seq![second] + later, name);
    lemma_key_choice_stable(keys.push(second), seq![first] + later, name);
}

/// A key appended to a list without one of its name is the one chosen.
proof fn lemma_first_after_missing(keys: Seq<KeyInfo>, k: KeyInfo, name: Seq<char>)
    requires
        forall|i: int| 0 <= i < keys.len() ==> #[trigger] keys[i].name@ != name,
        k.name@ == name,
    ensures
        key_for(keys.push(k), name) == Some(k),
    decreases keys.len(),
{
    if keys.len() > 0 {
        assert(keys.push(k).drop_first() =~= keys.drop_first().push(k));
        assert forall|i: int| 0 <= i < keys.drop_first().len() implies #[trigger] keys.drop_first()[i].name@ != name by {
            assert(keys.drop_first()[i] == keys[i + 1]);
        }
        lemma_first_after_missing(keys.drop_first(), k, name);
        assert(keys.push(k)[0] == keys[0]);
    } else {
        assert(keys.push(k)[0] == k);
    }
}

} // verus!

//! The body of a request: a mapping from wire field names to JSON values.
//!
//! A field stands in the body exactly when a value was supplied for it. An
//! argument that is absent leaves no trace: no key, and no `null`.

use crate::json::{
    entries_map, has_key, index_of, json_members, json_model, json_object, json_text_of,
    keys_distinct, IntoJson, Json,
};
use crate::request::{has_part, lemma_part_found, names_distinct, part_index, parts_map};
use vstd::prelude::*;

verus! {

/// The fields of a body as contracts see them.
pub struct Fields {
    pub map: Map<Seq<char>, Json>,
}

impl Fields {
    /// No field at all.
    pub open spec fn empty() -> Fields {
        Fields { map: Map::empty() }
    }

    /// Whether the field `name` is there.
    pub open spec fn has(self, name: Seq<char>) -> bool {
        self.map.dom().contains(name)
    }

    /// The fields with `name` set to `value`, whatever it was before.
    pub open spec fn set(self, name: Seq<char>, value: Json) -> Fields {
        Fields { map: self.map.insert(name, value) }
    }

    /// The fields with `name` set where a value is supplied, and unchanged
    /// where none is.
    pub open spec fn opt(self, name: Seq<char>, value: Option<Json>) -> Fields {
        match value {
            Some(v) => self.set(name, v),
            None => self,
        }
    }

    /// The fields after a list of named optional arguments, taken in order:
    /// each argument that is supplied sets its field, and each that is
    /// absent does nothing.
    pub open spec fn after(self, args: Seq<(Seq<char>, Option<Json>)>) -> Fields
        decreases args.len(),
    {
        if args.len() == 0 {
            self
        } else {
            self.after(args.drop_last()).opt(args.last().0, args.last().1)
        }
    }

    /// The fields that a list of named optional arguments leaves.
    pub open spec fn of(args: Seq<(Seq<char>, Option<Json>)>) -> Fields {
        Fields::empty().after(args)
    }

    /// Whether every field holds a string.
    pub open spec fn is_flat(self) -> bool {
        forall|k: Seq<char>| self.has(k) ==> #[trigger] self.map[k] is Text
    }

    /// The fields of a flat body, each with the characters of its string.
    pub open spec fn texts(self) -> Map<Seq<char>, Seq<char>> {
        Map::new(|k: Seq<char>| self.has(k), |k: Seq<char>| self.map[k]->Text_0)
    }

    /// The fields with every member of the object `extra` set. A field that
    /// both name takes the value from `extra`. Anything but an object
    /// changes nothing.
    pub open spec fn merge(self, extra: Option<Json>) -> Fields {
        match extra {
            Some(Json::Object(members)) => Fields { map: self.map.union_prefer_right(members) },
            _ => self,
        }
    }
}

/// The JSON form of an optional argument: none where the argument is absent.
pub open spec fn opt_json<T: IntoJson>(value: Option<T>) -> Option<Json> {
    match value {
        Some(v) => Some(v.json_spec()),
        None => None,
    }
}

/// A list of named optional values as contracts see it.
pub open spec fn args_model(args: Seq<(String, Option<serde_json::Value>)>) -> Seq<
    (Seq<char>, Option<Json>),
> {
    Seq::new(args.len(), |i: int| (args[i].0@, opt_json(args[i].1)))
}

/// Taking the arguments in order is taking the first, then the rest.
proof fn lemma_after_first(fields: Fields, args: Seq<(Seq<char>, Option<Json>)>)
    requires
        args.len() > 0,
    ensures
        fields.after(args) == fields.opt(args[0].0, args[0].1).after(args.drop_first()),
    decreases args.len(),
{
    let first = fields.opt(args[0].0, args[0].1);
    if args.len() == 1 {
        assert(fields.after(args.drop_last()) == fields);
        assert(first.after(args.drop_first()) == first);
    } else {
        let front = args.drop_last();
        lemma_after_first(fields, front);
        assert(front.drop_first() =~= args.drop_first().drop_last());
        assert(front[0] == args[0]);
        assert(args.drop_first().last() == args.last());
    }
}

/// In a list with distinct keys every entry is found under its own key.
proof fn lemma_entry_found(es: Seq<(String, serde_json::Value)>, i: int)
    requires
        keys_distinct(es),
        0 <= i < es.len(),
    ensures
        has_key(es, es[i].0@),
        index_of(es, es[i].0@) == i,
        entries_map(es)[es[i].0@] == json_model(es[i].1),
{
    let k = es[i].0@;
    assert(has_key(es, k));
    let j = index_of(es, k);
    assert(0 <= j < es.len() && es[j].0@ == k);
    if j != i {
        if j < i {
            assert(es[j].0@ != es[i].0@);
        } else {
            assert(es[i].0@ != es[j].0@);
        }
    }
}

/// The body of a request.
#[derive(Debug)]
pub struct Body {
    entries: Vec<(String, serde_json::Value)>,
}

impl View for Body {
    type V = Fields;

    closed spec fn view(&self) -> Fields {
        Fields { map: entries_map(self.entries@) }
    }
}

impl Body {
    #[verifier::type_invariant]
    closed spec fn wf(&self) -> bool {
        keys_distinct(self.entries@)
    }

    /// A body without fields.
    pub fn new() -> (r: Body)
        ensures
            r@ == Fields::empty(),
    {
        let r = Body { entries: Vec::new() };
        assert(r@.map =~= Map::empty());
        r
    }

    /// Builds a body from a list of named optional values, taken in order:
    /// a value that is supplied sets its field, replacing what an earlier
    /// one set, and an absent value is passed over.
    pub fn from_args(args: Vec<(String, Option<serde_json::Value>)>) -> (r: Body)
        ensures
            r@ == Fields::of(args_model(args@)),
    {
        let mut body = Body::new();
        let mut rest = args;
        while rest.len() > 0
            invariant
                body@.after(args_model(rest@)) == Fields::of(args_model(args@)),
            decreases rest.len(),
        {
            let ghost before = rest@;
            let (name, value) = rest.remove(0);
            proof {
                lemma_after_first(body@, args_model(before));
                assert(args_model(rest@) =~= args_model(before).drop_first());
            }
            match value {
                Some(v) => {
                    body.put(name, v);
                },
                None => {},
            }
        }
        body
    }

    /// The number of fields.
    pub fn len(&self) -> (n: usize)
        ensures
            n == self@.map.dom().len(),
            self@.map.dom().finite(),
    {
        proof {
            use_type_invariant(self);
            lemma_entries_count(self.entries@);
        }
        self.entries.len()
    }

    /// Whether the body has no field.
    pub fn is_empty(&self) -> (r: bool)
        ensures
            r == (self@ == Fields::empty()),
    {
        proof {
            use_type_invariant(self);
            if self.entries@.len() > 0 {
                lemma_entry_found(self.entries@, 0);
                assert(self@.map.dom().contains(self.entries@[0].0@));
            } else {
                assert(self@.map =~= Map::empty());
            }
        }
        self.entries.len() == 0
    }

    /// Where the field `name` stands among the entries, if it is there.
    fn position(&self, name: &String) -> (r: Option<usize>)
        ensures
            match r {
                Some(i) => i < self.entries@.len() && self.entries@[i as int].0@ == name@,
                None => !has_key(self.entries@, name@),
            },
    {
        let mut i: usize = 0;
        while i < self.entries.len()
            invariant
                i <= self.entries@.len(),
                forall|j: int| 0 <= j < i ==> (#[trigger] self.entries@[j]).0@ != name@,
            decreases self.entries@.len() - i,
        {
            if self.entries[i].0 == *name {
                return Some(i);
            }
            i += 1;
        }
        None
    }

    /// Whether the field `name` is there.
    pub fn contains_key(&self, name: &str) -> (r: bool)
        ensures
            r == self@.has(name@),
    {
        let key = name.to_owned();
        self.position(&key).is_some()
    }

    /// The value of the field `name`, if it is there.
    pub fn get(&self, name: &str) -> (r: Option<&serde_json::Value>)
        ensures
            match r {
                Some(v) => self@.has(name@) && json_model(*v) == self@.map[name@],
                None => !self@.has(name@),
            },
    {
        proof {
            use_type_invariant(self);
        }
        let key = name.to_owned();
        match self.position(&key) {
            Some(i) => {
                proof {
                    lemma_entry_found(self.entries@, i as int);
                }
                Some(&self.entries[i].1)
            },
            None => None,
        }
    }

    /// Sets the field `name` to an already built JSON value.
    fn put(&mut self, key: String, value: serde_json::Value)
        ensures
            final(self)@ == old(self)@.set(key@, json_model(value)),
    {
        proof {
            use_type_invariant(&*self);
        }
        let found = self.position(&key);
        let mut entries: Vec<(String, serde_json::Value)> = Vec::new();
        std::mem::swap(&mut entries, &mut self.entries);
        let ghost before = entries@;
        let ghost k = key@;
        let ghost m = json_model(value);
        match found {
            Some(i) => {
                entries.set(i, (key, value));
                proof {
                    lemma_replaced(before, entries@, i as int);
                }
            },
            None => {
                entries.push((key, value));
                proof {
                    lemma_pushed(before, entries@);
                }
            },
        }
        self.entries = entries;
        assert(self@.map =~= old(self)@.map.insert(k, m));
    }

    /// Sets the field `name` to `value`. A value that the field had before
    /// is replaced.
    pub fn insert<T: IntoJson>(&mut self, name: &str, value: T)
        ensures
            final(self)@ == old(self)@.set(name@, value.json_spec()),
    {
        self.put(name.to_owned(), value.into_json());
    }

    /// Sets the field `name` where a value is supplied; an absent value
    /// leaves the body as it is.
    pub fn opsert<T: IntoJson>(&mut self, name: &str, value: Option<T>)
        ensures
            final(self)@ == old(self)@.opt(name@, opt_json(value)),
    {
        match value {
            Some(v) => {
                self.insert(name, v);
            },
            None => {},
        }
    }

    /// Takes over every member of the object `extra`, after the fields that
    /// are already there: where both name a field, the member of `extra`
    /// stays. An absent `extra`, or one that is no object, changes nothing.
    pub fn merge(&mut self, extra: Option<serde_json::Value>)
        ensures
            final(self)@ == old(self)@.merge(opt_json(extra)),
    {
        let members = match extra {
            Some(v) => json_members(&v),
            None => None,
        };
        match members {
            Some(mut es) => {
                let ghost target = old(self)@.map.union_prefer_right(entries_map(es@));
                while es.len() > 0
                    invariant
                        keys_distinct(es@),
                        self@.map.union_prefer_right(entries_map(es@)) =~= target,
                    decreases es@.len(),
                {
                    let ghost rest = es@;
                    let ghost cur = self@.map;
                    let entry = es.pop().unwrap();
                    let ghost k = entry.0@;
                    let ghost m = json_model(entry.1);
                    proof {
                        lemma_entry_found(rest, rest.len() - 1);
                        lemma_popped(rest, es@);
                    }
                    self.put(entry.0, entry.1);
                    assert(self@.map.union_prefer_right(entries_map(es@)) =~= cur.union_prefer_right(
                        entries_map(rest),
                    ));
                }
                assert(entries_map(es@) =~= Map::<Seq<char>, Json>::empty());
                assert(self@.map =~= target);
            },
            None => {},
        }
    }

}

impl Body {
    /// The fields as the text parts of a form: each field with the
    /// characters of its string. A body with a field that holds anything
    /// but a string has no such parts.
    pub fn text_parts(&self) -> (r: Option<Vec<(String, String)>>)
        ensures
            r is Some <==> self@.is_flat(),
            r matches Some(parts) ==> names_distinct(parts@) && parts_map(parts@)
                == self@.texts(),
    {
        proof {
            use_type_invariant(self);
        }
        let mut parts: Vec<(String, String)> = Vec::new();
        let mut i: usize = 0;
        while i < self.entries.len()
            invariant
                keys_distinct(self.entries@),
                i <= self.entries@.len(),
                parts@.len() == i,
                forall|j: int|
                    0 <= j < i ==> (#[trigger] parts@[j]).0@ == self.entries@[j].0@ && json_model(
                        self.entries@[j].1,
                    ) == Json::Text(parts@[j].1@),
            decreases self.entries@.len() - i,
        {
            match json_text_of(&self.entries[i].1) {
                Some(text) => {
                    parts.push((self.entries[i].0.clone(), text));
                },
                None => {
                    proof {
                        lemma_entry_found(self.entries@, i as int);
                    }
                    return None;
                },
            }
            i += 1;
        }
        proof {
            let es = self.entries@;
            let ps = parts@;
            assert forall|a: int, b: int| 0 <= a < b < ps.len() implies (#[trigger] ps[a]).0@ != (
            #[trigger] ps[b]).0@ by {
                assert(es[a].0@ != es[b].0@);
            }
            assert forall|k: Seq<char>| has_part(ps, k) <==> has_key(es, k) by {
                if has_part(ps, k) {
                    let a = part_index(ps, k);
                    assert(es[a].0@ == k);
                }
                if has_key(es, k) {
                    let a = index_of(es, k);
                    assert(ps[a].0@ == k);
                }
            }
            assert forall|k: Seq<char>| has_key(es, k) implies entries_map(es)[k] == Json::Text(
                #[trigger] parts_map(ps)[k],
            ) by {
                let a = index_of(es, k);
                lemma_entry_found(es, a);
                assert(ps[a].0@ == k);
                lemma_part_found(ps, a);
            }
            assert(self@.is_flat());
            assert(parts_map(ps) =~= self@.texts());
        }
        Some(parts)
    }
}

impl IntoJson for Body {
    open spec fn json_spec(&self) -> Json {
        Json::Object(self@.map)
    }

    /// The JSON object with exactly the fields of the body.
    fn into_json(self) -> (r: serde_json::Value) {
        proof {
            use_type_invariant(&self);
        }
        json_object(self.entries)
    }
}

/// A list with distinct keys has as many entries as its mapping has keys.
proof fn lemma_entries_count(es: Seq<(String, serde_json::Value)>)
    requires
        keys_distinct(es),
    ensures
        entries_map(es).dom().finite(),
        entries_map(es).dom().len() == es.len(),
    decreases es.len(),
{
    if es.len() == 0 {
        assert(entries_map(es).dom() =~= Set::<Seq<char>>::empty());
    } else {
        let front = es.drop_last();
        let last = es.last();
        lemma_entries_count(front);
        lemma_pushed_key(front, es);
        assert(entries_map(es).dom() =~= entries_map(front).dom().insert(last.0@));
        assert(!entries_map(front).dom().contains(last.0@));
    }
}

/// What a list gains by one more entry with a new key.
proof fn lemma_pushed_key(before: Seq<(String, serde_json::Value)>, after: Seq<(String, serde_json::Value)>)
    requires
        after.len() == before.len() + 1,
        before =~= after.drop_last(),
        keys_distinct(after),
    ensures
        keys_distinct(before),
        !has_key(before, after.last().0@),
        entries_map(after) =~= entries_map(before).insert(after.last().0@, json_model(after.last().1)),
{
    let n = before.len() as int;
    assert forall|i: int, j: int| 0 <= i < j < before.len() implies (#[trigger] before[i]).0@ != (
    #[trigger] before[j]).0@ by {
        assert(after[i].0@ != after[j].0@);
    }
    if has_key(before, after[n].0@) {
        let i = index_of(before, after[n].0@);
        assert(after[i].0@ != after[n].0@);
    }
    assert forall|k: Seq<char>| has_key(after, k) <==> (has_key(before, k) || k == after[n].0@) by {
        if has_key(after, k) {
            let i = index_of(after, k);
            if i < n {
                assert(before[i].0@ == k);
            }
        }
        if has_key(before, k) {
            let i = index_of(before, k);
            assert(after[i].0@ == k);
        }
        if k == after[n].0@ {
            assert(after[n].0@ == k);
        }
    }
    assert forall|k: Seq<char>| has_key(after, k) implies #[trigger] entries_map(after)[k] == (if k
        == after[n].0@ {
        json_model(after[n].1)
    } else {
        entries_map(before)[k]
    }) by {
        let i = index_of(after, k);
        lemma_entry_found(after, i);
        if i < n {
            lemma_entry_found(before, i);
        }
    }
}

/// Pushing an entry with a new key sets that key.
proof fn lemma_pushed(before: Seq<(String, serde_json::Value)>, after: Seq<(String, serde_json::Value)>)
    requires
        keys_distinct(before),
        after.len() == before.len() + 1,
        before =~= after.drop_last(),
        !has_key(before, after.last().0@),
    ensures
        keys_distinct(after),
        entries_map(after) =~= entries_map(before).insert(after.last().0@, json_model(after.last().1)),
{
    let n = before.len() as int;
    assert forall|i: int, j: int| 0 <= i < j < after.len() implies (#[trigger] after[i]).0@ != (
    #[trigger] after[j]).0@ by {
        if j < n {
            assert(before[i].0@ != before[j].0@);
        } else {
            assert(before[i].0@ == after[i].0@);
        }
    }
    lemma_pushed_key(before, after);
}

/// Taking the last entry off a list with distinct keys removes its key.
proof fn lemma_popped(before: Seq<(String, serde_json::Value)>, after: Seq<(String, serde_json::Value)>)
    requires
        keys_distinct(before),
        before.len() > 0,
        after =~= before.drop_last(),
    ensures
        keys_distinct(after),
        !has_key(after, before.last().0@),
        entries_map(before) =~= entries_map(after).insert(before.last().0@, json_model(before.last().1)),
{
    lemma_pushed_key(after, before);
}

/// Replacing the value of one entry sets its key and keeps the others.
proof fn lemma_replaced(before: Seq<(String, serde_json::Value)>, after: Seq<(String, serde_json::Value)>, i: int)
    requires
        keys_distinct(before),
        0 <= i < before.len(),
        after.len() == before.len(),
        after[i].0@ == before[i].0@,
        forall|j: int| 0 <= j < before.len() && j != i ==> after[j] == before[j],
    ensures
        keys_distinct(after),
        entries_map(after) =~= entries_map(before).insert(after[i].0@, json_model(after[i].1)),
{
    assert forall|a: int| 0 <= a < after.len() implies (#[trigger] after[a]).0@ == before[a].0@ by {}
    assert forall|a: int, b: int| 0 <= a < b < after.len() implies (#[trigger] after[a]).0@ != (
    #[trigger] after[b]).0@ by {
        assert(before[a].0@ != before[b].0@);
    }
    assert forall|k: Seq<char>| has_key(after, k) <==> has_key(before, k) by {
        if has_key(after, k) {
            let a = index_of(after, k);
            assert(before[a].0@ == k);
        }
        if has_key(before, k) {
            let a = index_of(before, k);
            assert(after[a].0@ == k);
        }
    }
    lemma_entry_found(before, i);
    assert forall|k: Seq<char>| has_key(after, k) implies #[trigger] entries_map(after)[k] == (if k
        == after[i].0@ {
        json_model(after[i].1)
    } else {
        entries_map(before)[k]
    }) by {
        let a = index_of(after, k);
        lemma_entry_found(after, a);
        lemma_entry_found(before, a);
    }
}

} // verus!

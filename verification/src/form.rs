//! Form bodies: `application/x-www-form-urlencoded` pairs and the table that
//! keeps the last value of every name.

use vstd::prelude::*;

verus! {

/// The `(name, value)` pairs that `form_urlencoded::parse` yields for a body,
/// in the order in which it yields them.
pub uninterp spec fn form_pairs(input: Seq<u8>) -> Seq<(Seq<char>, Seq<char>)>;

/// Decodes a body with `form_urlencoded::parse`. The pairs come out
/// percent-decoded and in the order of the body; the contract names them
/// [`form_pairs`] and claims that the same bytes always give the same pairs.
#[verifier::external_body]
pub(crate) fn parse_form(input: &[u8]) -> (pairs: Vec<(String, String)>)
    ensures
        pairs.deep_view() == form_pairs(input@),
{
    form_urlencoded::parse(input).into_owned().collect()
}

/// The map a list of pairs stands for when a later pair replaces an earlier
/// one of the same name.
pub open spec fn last_wins(pairs: Seq<(Seq<char>, Seq<char>)>) -> Map<Seq<char>, Seq<char>>
    decreases pairs.len(),
{
    if pairs.len() == 0 {
        Map::empty()
    } else {
        last_wins(pairs.drop_last()).insert(pairs.last().0, pairs.last().1)
    }
}

/// No name stands at two places of the list.
pub open spec fn distinct_names(pairs: Seq<(Seq<char>, Seq<char>)>) -> bool {
    forall|i: int, j: int| 0 <= i < j < pairs.len() ==> pairs[i].0 != pairs[j].0
}

/// A name is in the map exactly when some pair carries it.
pub proof fn lemma_last_wins_names(pairs: Seq<(Seq<char>, Seq<char>)>, name: Seq<char>)
    ensures
        last_wins(pairs).contains_key(name) <==> exists|i: int|
            0 <= i < pairs.len() && #[trigger] pairs[i].0 == name,
    decreases pairs.len(),
{
    if pairs.len() > 0 {
        let front = pairs.drop_last();
        lemma_last_wins_names(front, name);
        if last_wins(pairs).contains_key(name) {
            if pairs.last().0 == name {
                assert(pairs[pairs.len() - 1].0 == name);
            } else {
                let i = choose|i: int| 0 <= i < front.len() && #[trigger] front[i].0 == name;
                assert(pairs[i].0 == name);
            }
        }
        if exists|i: int| 0 <= i < pairs.len() && #[trigger] pairs[i].0 == name {
            let i = choose|i: int| 0 <= i < pairs.len() && #[trigger] pairs[i].0 == name;
            if i < pairs.len() - 1 {
                assert(front[i].0 == name);
            }
        }
    }
}

/// The map gives a name the value of the last pair that carries it.
pub proof fn lemma_last_wins_value(pairs: Seq<(Seq<char>, Seq<char>)>, at: int)
    requires
        0 <= at < pairs.len(),
        forall|j: int| at < j < pairs.len() ==> pairs[j].0 != pairs[at].0,
    ensures
        last_wins(pairs).contains_key(pairs[at].0),
        last_wins(pairs)[pairs[at].0] == pairs[at].1,
    decreases pairs.len(),
{
    if at < pairs.len() - 1 {
        let front = pairs.drop_last();
        assert(front[at] == pairs[at]);
        assert forall|j: int| at < j < front.len() implies front[j].0 != front[at].0 by {
            assert(front[j] == pairs[j]);
        }
        lemma_last_wins_value(front, at);
        assert(pairs[pairs.len() - 1].0 != pairs[at].0);
    }
}

/// The map is finite and has no more names than the list has pairs; with
/// distinct names it has exactly as many.
pub proof fn lemma_last_wins_size(pairs: Seq<(Seq<char>, Seq<char>)>)
    ensures
        last_wins(pairs).dom().finite(),
        last_wins(pairs).dom().len() <= pairs.len(),
        distinct_names(pairs) ==> last_wins(pairs).dom().len() == pairs.len(),
    decreases pairs.len(),
{
    if pairs.len() > 0 {
        let front = pairs.drop_last();
        lemma_last_wins_size(front);
        assert(last_wins(pairs).dom() =~= last_wins(front).dom().insert(pairs.last().0));
        if distinct_names(pairs) {
            assert forall|i: int, j: int| 0 <= i < j < front.len() implies front[i].0
                != front[j].0 by {
                assert(front[i] == pairs[i] && front[j] == pairs[j]);
            }
            lemma_last_wins_names(front, pairs.last().0);
            if last_wins(front).contains_key(pairs.last().0) {
                let i = choose|i: int|
                    0 <= i < front.len() && #[trigger] front[i].0 == pairs.last().0;
                assert(pairs[i].0 == pairs[pairs.len() - 1].0);
            }
        }
    }
}

/// Replacing the value of the one pair that carries a name is an insertion
/// into the map.
proof fn lemma_last_wins_update(
    pairs: Seq<(Seq<char>, Seq<char>)>,
    at: int,
    value: Seq<char>,
)
    requires
        0 <= at < pairs.len(),
        distinct_names(pairs),
    ensures
        last_wins(pairs.update(at, (pairs[at].0, value))) == last_wins(pairs).insert(
            pairs[at].0,
            value,
        ),
    decreases pairs.len(),
{
    let name = pairs[at].0;
    let changed = pairs.update(at, (name, value));
    let front = pairs.drop_last();
    if at == pairs.len() - 1 {
        assert(changed.drop_last() =~= front);
        assert(last_wins(changed) =~= last_wins(pairs).insert(name, value));
    } else {
        assert(changed.drop_last() =~= front.update(at, (front[at].0, value)));
        assert forall|i: int, j: int| 0 <= i < j < front.len() implies front[i].0
            != front[j].0 by {
            assert(front[i] == pairs[i] && front[j] == pairs[j]);
        }
        lemma_last_wins_update(front, at, value);
        assert(pairs[at].0 != pairs[pairs.len() - 1].0);
        assert(changed.last() == pairs.last());
        assert(last_wins(changed) =~= last_wins(pairs).insert(name, value));
    }
}

/// The fields of a form body: every name once, with the value that the body
/// gave it last.
pub struct FormFields {
    entries: Vec<(String, String)>,
}

impl View for FormFields {
    type V = Map<Seq<char>, Seq<char>>;

    closed spec fn view(&self) -> Map<Seq<char>, Seq<char>> {
        last_wins(self.entries.deep_view())
    }
}

impl FormFields {
    #[verifier::type_invariant]
    spec fn names_once(&self) -> bool {
        distinct_names(self.entries.deep_view())
    }

    /// A table without fields.
    pub fn new() -> (fields: FormFields)
        ensures
            fields@ == Map::<Seq<char>, Seq<char>>::empty(),
    {
        let entries: Vec<(String, String)> = Vec::new();
        assert(entries.deep_view() =~= Seq::empty());
        FormFields { entries }
    }

    /// The place of a name among the entries.
    fn position(&self, name: &String) -> (found: Option<usize>)
        ensures
            match found {
                Some(at) => at < self.entries.len() && self.entries[at as int].0@ == name@,
                None => forall|i: int|
                    0 <= i < self.entries.len() ==> (#[trigger] self.entries[i]).0@ != name@,
            },
    {
        let mut at: usize = 0;
        while at < self.entries.len()
            invariant
                at <= self.entries.len(),
                forall|i: int| 0 <= i < at ==> (#[trigger] self.entries[i]).0@ != name@,
            decreases self.entries.len() - at,
        {
            if self.entries[at].0 == *name {
                return Some(at);
            }
            at += 1;
        }
        None
    }

    /// Gives a name a value; an earlier value of that name is replaced.
    pub fn insert(&mut self, name: String, value: String)
        ensures
            final(self)@ == old(self)@.insert(name@, value@),
    {
        proof {
            use_type_invariant(&*self);
        }
        let found = self.position(&name);
        let ghost before = self.entries.deep_view();
        let mut entries: Vec<(String, String)> = Vec::new();
        assert(entries.deep_view() =~= Seq::empty());
        std::mem::swap(&mut self.entries, &mut entries);
        match found {
            Some(at) => {
                proof {
                    lemma_last_wins_update(before, at as int, value@);
                }
                entries.set(at, (name, value));
                assert(entries.deep_view() =~= before.update(
                    at as int,
                    (before[at as int].0, value@),
                ));
            },
            None => {
                entries.push((name, value));
                assert(entries.deep_view() =~= before.push((name@, value@)));
                assert(entries.deep_view().drop_last() =~= before);
            },
        }
        self.entries = entries;
    }

    /// The value of a name, if the table has the name.
    pub fn get(&self, name: &String) -> (value: Option<&String>)
        ensures
            match value {
                Some(text) => self@.contains_key(name@) && self@[name@] == text@,
                None => !self@.contains_key(name@),
            },
    {
        proof {
            use_type_invariant(self);
            lemma_last_wins_names(self.entries.deep_view(), name@);
        }
        match self.position(name) {
            Some(at) => {
                proof {
                    lemma_last_wins_value(self.entries.deep_view(), at as int);
                }
                Some(&self.entries[at].1)
            },
            None => None,
        }
    }

    /// The number of names.
    pub fn len(&self) -> (count: usize)
        ensures
            self@.dom().finite(),
            count == self@.dom().len(),
    {
        proof {
            use_type_invariant(self);
            lemma_last_wins_size(self.entries.deep_view());
        }
        self.entries.len()
    }

    /// The table of a list of pairs, a later pair replacing an earlier one of
    /// the same name.
    pub fn from_pairs(pairs: &Vec<(String, String)>) -> (fields: FormFields)
        ensures
            fields@ == last_wins(pairs.deep_view()),
    {
        let mut fields = FormFields::new();
        let mut done: usize = 0;
        while done < pairs.len()
            invariant
                done <= pairs.len(),
                fields@ == last_wins(pairs.deep_view().take(done as int)),
            decreases pairs.len() - done,
        {
            let name = pairs[done].0.clone();
            let value = pairs[done].1.clone();
            fields.insert(name, value);
            assert(pairs.deep_view().take(done + 1).drop_last() =~= pairs.deep_view().take(
                done as int,
            ));
            done += 1;
        }
        assert(pairs.deep_view().take(done as int) =~= pairs.deep_view());
        fields
    }

    /// The fields of a form body.
    pub fn parse(body: &[u8]) -> (fields: FormFields)
        ensures
            fields@ == last_wins(form_pairs(body@)),
    {
        let pairs = parse_form(body);
        FormFields::from_pairs(&pairs)
    }
}

} // verus!

//! An ordered vector of values keyed by name, looked up by key or position,
//! and the small records the operator console keeps.
use vstd::prelude::*;

verus! {

broadcast use vstd::seq_lib::group_to_multiset_ensures;

/// A value with a name.
#[derive(Clone, Debug, PartialEq)]
pub struct NamedValue<T> {
    pub name: String,
    pub value: T,
}

impl<T> NamedValue<T> {
    pub fn new(new_name: String, new_value: T) -> (r: NamedValue<T>)
        ensures
            r.name == new_name,
            r.value == new_value,
    {
        NamedValue { name: new_name, value: new_value }
    }
}

/// `i` is the first position of `s` whose name is `key`.
pub open spec fn is_first<T>(s: Seq<NamedValue<T>>, key: Seq<char>, i: int) -> bool {
    &&& 0 <= i < s.len()
    &&& s[i].name@ == key
    &&& forall|j: int| 0 <= j < i ==> (#[trigger] s[j]).name@ != key
}

/// No position of `s` has the name `key`.
pub open spec fn absent<T>(s: Seq<NamedValue<T>>, key: Seq<char>) -> bool {
    forall|j: int| 0 <= j < s.len() ==> (#[trigger] s[j]).name@ != key
}

/// Byte-wise lexicographic order, the order of `String`'s comparison.
pub open spec fn lex_le(a: Seq<u8>, b: Seq<u8>) -> bool
    decreases a.len(),
{
    if a.len() == 0 {
        true
    } else if b.len() == 0 {
        false
    } else if a[0] != b[0] {
        a[0] < b[0]
    } else {
        lex_le(a.drop_first(), b.drop_first())
    }
}

proof fn lemma_lex_total(a: Seq<u8>, b: Seq<u8>)
    ensures
        lex_le(a, b) || lex_le(b, a),
    decreases a.len(),
{
    if a.len() > 0 && b.len() > 0 && a[0] == b[0] {
        lemma_lex_total(a.drop_first(), b.drop_first());
    }
}

proof fn lemma_lex_refl(a: Seq<u8>)
    ensures
        lex_le(a, a),
    decreases a.len(),
{
    if a.len() > 0 {
        lemma_lex_refl(a.drop_first());
    }
}

proof fn lemma_lex_trans(a: Seq<u8>, b: Seq<u8>, c: Seq<u8>)
    requires
        lex_le(a, b),
        lex_le(b, c),
    ensures
        lex_le(a, c),
    decreases a.len(),
{
    if a.len() > 0 && b.len() > 0 && c.len() > 0 && a[0] == b[0] && b[0] == c[0] {
        lemma_lex_trans(a.drop_first(), b.drop_first(), c.drop_first());
    }
}

/// The name of `v` as bytes.
pub open spec fn name_bytes<T>(v: NamedValue<T>) -> Seq<u8> {
    vstd::utf8::encode_utf8(v.name@)
}

/// `s` is in order of name.
pub open spec fn sorted_by_name<T>(s: Seq<NamedValue<T>>) -> bool {
    forall|i: int, j: int| 0 <= i < j < s.len() ==> lex_le(name_bytes(#[trigger] s[i]), name_bytes(#[trigger] s[j]))
}

/// Compares two byte strings in lexicographic order.
fn bytes_le(a: &[u8], b: &[u8]) -> (r: bool)
    ensures
        r == lex_le(a@, b@),
{
    let mut i: usize = 0;
    proof {
        assert(a@.subrange(0, a@.len() as int) =~= a@);
        assert(b@.subrange(0, b@.len() as int) =~= b@);
    }
    while i < a.len() && i < b.len()
        invariant
            i <= a@.len(),
            i <= b@.len(),
            lex_le(a@, b@) == lex_le(a@.subrange(i as int, a@.len() as int), b@.subrange(i as int, b@.len() as int)),
        decreases a@.len() - i,
    {
        let ghost sa = a@.subrange(i as int, a@.len() as int);
        let ghost sb = b@.subrange(i as int, b@.len() as int);
        if a[i] != b[i] {
            return a[i] < b[i];
        }
        proof {
            assert(sa.drop_first() =~= a@.subrange(i + 1, a@.len() as int));
            assert(sb.drop_first() =~= b@.subrange(i + 1, b@.len() as int));
        }
        i = i + 1;
    }
    i == a.len()
}

/// Values kept in a stable order, each under a name. Names are found by a
/// scan of the vector, so that every lookup has a contract over the
/// vector's contents; a map keyed by `String` would give none.
#[derive(Clone, Debug)]
pub struct StringLookupVector<T> {
    vector: Vec<NamedValue<T>>,
}

impl<T> View for StringLookupVector<T> {
    type V = Seq<NamedValue<T>>;

    closed spec fn view(&self) -> Seq<NamedValue<T>> {
        self.vector@
    }
}

/// Capacity reserved by `StringLookupVector::new`.
pub const DEFAULT_CAPACITY: usize = 8;

impl<T> StringLookupVector<T> {
    pub fn len(&self) -> (r: usize)
        ensures
            r == self@.len(),
    {
        self.vector.len()
    }

    /// An empty vector with room for `capacity` values.
    pub fn with_capacity(capacity: usize) -> (r: StringLookupVector<T>)
        ensures
            r@ == Seq::<NamedValue<T>>::empty(),
    {
        StringLookupVector { vector: Vec::with_capacity(capacity) }
    }

    /// An empty vector.
    pub fn new() -> (r: StringLookupVector<T>)
        ensures
            r@ == Seq::<NamedValue<T>>::empty(),
    {
        Self::with_capacity(DEFAULT_CAPACITY)
    }

    /// The position of the value named `key`.
    pub fn index_of(&self, key: &String) -> (r: Option<usize>)
        ensures
            match r {
                Some(i) => is_first(self@, key@, i as int),
                None => absent(self@, key@),
            },
    {
        let mut i: usize = 0;
        while i < self.vector.len()
            invariant
                i <= self@.len(),
                forall|j: int| 0 <= j < i ==> (#[trigger] self@[j]).name@ != key@,
            decreases self@.len() - i,
        {
            if self.vector[i].name == *key {
                return Some(i);
            }
            i = i + 1;
        }
        None
    }

    /// Whether a value is named `key`.
    pub fn contains_key(&self, key: &String) -> (r: bool)
        ensures
            r == !absent(self@, key@),
    {
        match self.index_of(key) {
            Some(i) => {
                assert(self@[i as int].name@ == key@);
                true
            },
            None => false,
        }
    }

    /// Stores `value` under `name`: replaces the value already named so,
    /// or appends a new entry at the end.
    pub fn add(&mut self, name: &String, value: T)
        ensures
            forall|i: int| is_first(old(self)@, name@, i) ==> final(self)@ == old(self)@.update(
                i,
                NamedValue { name: old(self)@[i].name, value },
            ),
            absent(old(self)@, name@) ==> final(self)@ == old(self)@.push(NamedValue { name: *name, value }),
    {
        match self.index_of(name) {
            Some(i) => {
                let n = self.vector[i].name.clone();
                self.vector.set(i, NamedValue { name: n, value });
                proof {
                    assert forall|k: int| is_first(old(self)@, name@, k) implies k == i by {
                        if k < i {
                            assert(old(self)@[k].name@ != name@);
                        } else if k > i {
                            assert(old(self)@[i as int].name@ != name@);
                        }
                    }
                }
            },
            None => {
                self.vector.push(NamedValue::new(name.clone(), value));
            },
        }
    }

    /// Removes the value named `key`, if any; the others keep their order.
    pub fn remove(&mut self, key: &String)
        ensures
            forall|i: int| is_first(old(self)@, key@, i) ==> final(self)@ == old(self)@.remove(i),
            absent(old(self)@, key@) ==> final(self)@ == old(self)@,
    {
        match self.index_of(key) {
            Some(i) => {
                self.vector.remove(i);
                proof {
                    assert forall|k: int| is_first(old(self)@, key@, k) implies k == i by {
                        if k < i {
                            assert(old(self)@[k].name@ != key@);
                        } else if k > i {
                            assert(old(self)@[i as int].name@ != key@);
                        }
                    }
                }
            },
            None => {},
        }
    }

    /// Orders the values by name, so that walking the vector goes in
    /// alphabetical order.
    pub fn sort_by_name(&mut self)
        ensures
            final(self)@.to_multiset() == old(self)@.to_multiset(),
            sorted_by_name(final(self)@),
    {
        let mut rest: Vec<NamedValue<T>> = Vec::new();
        std::mem::swap(&mut rest, &mut self.vector);
        let ghost orig = rest@;
        let mut out: Vec<NamedValue<T>> = Vec::new();
        while rest.len() > 0
            invariant
                out@.to_multiset().add(rest@.to_multiset()) == orig.to_multiset(),
                sorted_by_name(out@),
                forall|i: int, j: int|
                    0 <= i < out@.len() && 0 <= j < rest@.len() ==> lex_le(
                        name_bytes(#[trigger] out@[i]),
                        name_bytes(#[trigger] rest@[j]),
                    ),
            decreases rest@.len(),
        {
            let mut m: usize = 0;
            let mut k: usize = 1;
            proof {
                lemma_lex_refl(name_bytes(rest@[0]));
            }
            while k < rest.len()
                invariant
                    0 <= m < k <= rest@.len(),
                    forall|j: int| 0 <= j < k ==> lex_le(name_bytes(rest@[m as int]), name_bytes(#[trigger] rest@[j])),
                decreases rest@.len() - k,
            {
                if !bytes_le(rest[m].name.as_str().as_bytes(), rest[k].name.as_str().as_bytes()) {
                    proof {
                        lemma_lex_total(name_bytes(rest@[m as int]), name_bytes(rest@[k as int]));
                        lemma_lex_refl(name_bytes(rest@[k as int]));
                        assert forall|j: int| 0 <= j < k + 1 implies lex_le(name_bytes(rest@[k as int]), name_bytes(#[trigger] rest@[j])) by {
                            if j < k {
                                lemma_lex_trans(name_bytes(rest@[k as int]), name_bytes(rest@[m as int]), name_bytes(rest@[j]));
                            }
                        }
                    }
                    m = k;
                }
                k = k + 1;
            }
            let ghost r0 = rest@;
            let ghost o0 = out@;
            let x = rest.remove(m);
            out.push(x);
            proof {
                assert(r0.remove(m as int).to_multiset() == r0.to_multiset().remove(r0[m as int]));
                assert(o0.push(x).to_multiset() =~= o0.to_multiset().insert(x));
                assert(out@.to_multiset().add(rest@.to_multiset()) =~= orig.to_multiset());
                assert forall|i: int, j: int| 0 <= i < j < out@.len() implies lex_le(name_bytes(#[trigger] out@[i]), name_bytes(#[trigger] out@[j])) by {
                    if j == out@.len() - 1 {
                        assert(out@[j] == r0[m as int]);
                    }
                }
                assert forall|i: int, j: int| 0 <= i < out@.len() && 0 <= j < rest@.len() implies lex_le(
                    name_bytes(#[trigger] out@[i]),
                    name_bytes(#[trigger] rest@[j]),
                ) by {
                    let jj = if j < m { j } else { j + 1 };
                    assert(rest@[j] == r0[jj]);
                    if i == out@.len() - 1 {
                        assert(out@[i] == r0[m as int]);
                    }
                }
            }
        }
        proof {
            assert(rest@ =~= Seq::<NamedValue<T>>::empty());
            assert(out@.to_multiset() =~= orig.to_multiset());
        }
        self.vector = out;
    }

    /// The value named `key`.
    pub fn get(&self, key: &String) -> (r: Option<&NamedValue<T>>)
        ensures
            forall|i: int| is_first(self@, key@, i) ==> r == Some(&self@[i]),
            absent(self@, key@) ==> r.is_none(),
    {
        match self.index_of(key) {
            Some(i) => {
                proof {
                    assert forall|k: int| is_first(self@, key@, k) implies k == i by {
                        if k < i {
                            assert(self@[k].name@ != key@);
                        } else if k > i {
                            assert(self@[i as int].name@ != key@);
                        }
                    }
                }
                Some(&self.vector[i])
            },
            None => None,
        }
    }

    /// The value at position `index`.
    pub fn get_from_index(&self, index: usize) -> (r: Option<&NamedValue<T>>)
        ensures
            r == if index < self@.len() { Some(&self@[index as int]) } else { None },
    {
        if index < self.vector.len() {
            Some(&self.vector[index])
        } else {
            None
        }
    }

    /// The value at position `index`, to change in place.
    pub fn get_mut_from_index(&mut self, index: usize) -> (r: Option<&mut NamedValue<T>>)
        ensures
            match r {
                Some(e) => {
                    &&& index < old(self)@.len()
                    &&& *e == old(self)@[index as int]
                    &&& final(self)@ == old(self)@.update(index as int, *final(e))
                },
                None => index >= old(self)@.len() && final(self)@ == old(self)@,
            },
    {
        if index < self.vector.len() {
            Some(&mut self.vector[index])
        } else {
            None
        }
    }

    /// The value named `key`, to change in place.
    pub fn get_mut(&mut self, key: &String) -> (r: Option<&mut NamedValue<T>>)
        ensures
            match r {
                Some(e) => {
                    &&& !absent(old(self)@, key@)
                    &&& forall|i: int| is_first(old(self)@, key@, i) ==> {
                        &&& *e == old(self)@[i]
                        &&& final(self)@ == old(self)@.update(i, *final(e))
                    }
                },
                None => absent(old(self)@, key@) && final(self)@ == old(self)@,
            },
    {
        match self.index_of(key) {
            Some(i) => {
                proof {
                    assert forall|k: int| is_first(old(self)@, key@, k) implies k == i by {
                        if k < i {
                            assert(old(self)@[k].name@ != key@);
                        } else if k > i {
                            assert(old(self)@[i as int].name@ != key@);
                        }
                    }
                }
                self.get_mut_from_index(i)
            },
            None => None,
        }
    }

    /// The values in order.
    pub fn iter(&self) -> (r: Vec<&NamedValue<T>>)
        ensures
            r@.len() == self@.len(),
            forall|i: int| 0 <= i < self@.len() ==> *r@[i] == self@[i],
    {
        let mut out: Vec<&NamedValue<T>> = Vec::new();
        let mut i: usize = 0;
        while i < self.vector.len()
            invariant
                i <= self@.len(),
                out@.len() == i,
                forall|j: int| 0 <= j < i ==> *out@[j] == self@[j],
            decreases self@.len() - i,
        {
            out.push(&self.vector[i]);
            i = i + 1;
        }
        out
    }
}

/// What became of a sequence sent from the console.
#[derive(Debug, Clone, Copy, PartialEq, Eq, Structural)]
pub enum SequenceSendResults {
    NoResult,
    FailedSend,
    Sent,
    ExecutionError,
    ExecutionComplete,
}

/// A command sent from the console, with its id and result.
#[derive(Debug, Clone, PartialEq, Eq)]
pub struct ExecutedCommandStruct {
    pub script: String,
    pub id: u64,
    pub result: SequenceSendResults,
}

/// The page that the console shows.
#[derive(Debug, Clone, Copy, PartialEq, Eq, Structural)]
pub enum Modes {
    Home,
    Logs,
}

/// Whether the console's command line is shown, and where it sends to.
#[derive(Debug, Clone, Copy, PartialEq, Eq, Structural)]
pub enum TUIConsoleState {
    Hidden,
    Flight,
}

} // verus!

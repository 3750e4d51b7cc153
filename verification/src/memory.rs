//! The scoped symbol table: a stack of mapping frames from name to a payload
//! type `T`. Instantiated twice — once with `T = Type` for the parse-time
//! checking pass, once with `T = Data` for evaluation — with one shared
//! push/pop discipline, so the two tables' scope depths stay in step.
//!
//! The table is viewed as a sequence of maps, innermost frame last. Lookup
//! searches innermost to outermost; `insert` writes the innermost frame;
//! `assign` rewrites the innermost frame that already holds the name.

use vstd::prelude::*;

verus! {

/// A stack of mapping frames, innermost last. There is always at least one
/// frame (the global frame); the operations below keep it that way.
pub struct Memory<T> {
    scopes: Vec<Vec<(String, T)>>,
}

/// The mapping a single frame holds: later entries shadow earlier ones.
spec fn frame_map<T>(fr: Seq<(String, T)>) -> Map<Seq<char>, T>
    decreases fr.len(),
{
    if fr.len() == 0 {
        Map::empty()
    } else {
        frame_map(fr.drop_last()).insert(fr.last().0@, fr.last().1)
    }
}

impl<T> View for Memory<T> {
    type V = Seq<Map<Seq<char>, T>>;

    closed spec fn view(&self) -> Seq<Map<Seq<char>, T>> {
        Seq::new(self.scopes@.len(), |i: int| frame_map(self.scopes@[i]@))
    }
}

/// The value a whole table associates with `key`: the innermost frame that
/// holds the name decides.
pub open spec fn mem_lookup<T>(m: Seq<Map<Seq<char>, T>>, key: Seq<char>) -> Option<T>
    decreases m.len(),
{
    if m.len() == 0 {
        None
    } else if m.last().contains_key(key) {
        Some(m.last()[key])
    } else {
        mem_lookup(m.drop_last(), key)
    }
}

/// The table after an assignment to `key`: the innermost frame that holds the
/// name is rewritten, every other frame stays; a table without the name stays
/// whole.
pub open spec fn mem_assign<T>(m: Seq<Map<Seq<char>, T>>, key: Seq<char>, value: T) -> Seq<
    Map<Seq<char>, T>,
>
    decreases m.len(),
{
    if m.len() == 0 {
        m
    } else if m.last().contains_key(key) {
        m.update(m.len() - 1, m.last().insert(key, value))
    } else {
        mem_assign(m.drop_last(), key, value).push(m.last())
    }
}

proof fn lemma_frame_map_skip<T>(fr: Seq<(String, T)>, key: Seq<char>, i: int)
    requires
        0 <= i <= fr.len(),
        forall|k: int| i <= k < fr.len() ==> fr[k].0@ != key,
    ensures
        frame_map(fr).contains_key(key) == frame_map(fr.subrange(0, i)).contains_key(key),
        frame_map(fr).contains_key(key) ==> frame_map(fr)[key] == frame_map(
            fr.subrange(0, i),
        )[key],
    decreases fr.len() - i,
{
    if i == fr.len() {
        assert(fr.subrange(0, i) =~= fr);
    } else {
        let shorter = fr.drop_last();
        assert(fr.last().0@ != key);
        lemma_frame_map_skip(shorter, key, i);
        assert(shorter.subrange(0, i) =~= fr.subrange(0, i));
    }
}

proof fn lemma_mem_lookup_skip<T>(m: Seq<Map<Seq<char>, T>>, key: Seq<char>, i: int)
    requires
        0 <= i <= m.len(),
        forall|k: int| i <= k < m.len() ==> !m[k].contains_key(key),
    ensures
        mem_lookup(m, key) == mem_lookup(m.subrange(0, i), key),
    decreases m.len() - i,
{
    if i == m.len() {
        assert(m.subrange(0, i) =~= m);
    } else {
        let shorter = m.drop_last();
        lemma_mem_lookup_skip(shorter, key, i);
        assert(shorter.subrange(0, i) =~= m.subrange(0, i));
    }
}

proof fn lemma_mem_assign_at<T>(m: Seq<Map<Seq<char>, T>>, key: Seq<char>, value: T, j: int)
    requires
        0 <= j < m.len(),
        m[j].contains_key(key),
        forall|k: int| j < k < m.len() ==> !m[k].contains_key(key),
    ensures
        mem_assign(m, key, value) == m.update(j, m[j].insert(key, value)),
    decreases m.len(),
{
    if j == m.len() - 1 {
    } else {
        let shorter = m.drop_last();
        lemma_mem_assign_at(shorter, key, value, j);
        assert(mem_assign(m, key, value) =~= m.update(j, m[j].insert(key, value)));
    }
}

/// The innermost entry of one frame under `key`, if the frame holds the name.
fn frame_get<'a, T>(fr: &'a Vec<(String, T)>, key: &String) -> (r: Option<&'a T>)
    ensures
        match r {
            Some(v) => frame_map(fr@).contains_key(key@) && *v == frame_map(fr@)[key@],
            None => !frame_map(fr@).contains_key(key@),
        },
{
    let mut i: usize = fr.len();
    while i > 0
        invariant
            i <= fr@.len(),
            forall|k: int| i <= k < fr@.len() ==> fr@[k].0@ != key@,
        decreases i,
    {
        i = i - 1;
        if fr[i].0 == *key {
            proof {
                lemma_frame_map_skip(fr@, key@, i + 1);
                let pre = fr@.subrange(0, i + 1);
                assert(pre.last() == fr@[i as int]);
                assert(pre.drop_last() =~= fr@.subrange(0, i as int));
            }
            return Some(&fr[i].1);
        }
    }
    proof {
        lemma_frame_map_skip(fr@, key@, 0);
        assert(fr@.subrange(0, 0) =~= Seq::<(String, T)>::empty());
    }
    None
}

impl<T> Memory<T> {
    /// A fresh table: one empty global frame.
    pub fn new() -> (r: Self)
        ensures
            r@.len() == 1,
            r@[0] == Map::<Seq<char>, T>::empty(),
    {
        let mut scopes: Vec<Vec<(String, T)>> = Vec::new();
        scopes.push(Vec::new());
        let r = Memory { scopes };
        proof {
            assert(r@[0] =~= Map::<Seq<char>, T>::empty());
        }
        r
    }

    /// The innermost binding of `key`, searching innermost to outermost.
    pub fn get(&self, key: &String) -> (r: Option<&T>)
        ensures
            match r {
                Some(v) => mem_lookup(self@, key@) == Some(*v),
                None => mem_lookup(self@, key@) is None,
            },
    {
        let mut j: usize = self.scopes.len();
        while j > 0
            invariant
                j <= self.scopes@.len(),
                self@.len() == self.scopes@.len(),
                forall|k: int| j <= k < self@.len() ==> !self@[k].contains_key(key@),
            decreases j,
        {
            j = j - 1;
            let found = frame_get(&self.scopes[j], key);
            match found {
                Some(v) => {
                    proof {
                        lemma_mem_lookup_skip(self@, key@, j + 1);
                        let pre = self@.subrange(0, j + 1);
                        assert(pre.last() == self@[j as int]);
                    }
                    return Some(v);
                },
                None => {},
            }
        }
        proof {
            lemma_mem_lookup_skip(self@, key@, 0);
            assert(self@.subrange(0, 0) =~= Seq::<Map<Seq<char>, T>>::empty());
        }
        None
    }

    /// Whether any frame, at any depth, binds `key`.
    pub fn has(&self, key: &String) -> (r: bool)
        ensures
            r == (mem_lookup(self@, key@) is Some),
    {
        self.get(key).is_some()
    }

    /// Pushes a fresh innermost frame; entering a block scope.
    pub fn push_scope(&mut self)
        ensures
            final(self)@ == old(self)@.push(Map::<Seq<char>, T>::empty()),
    {
        self.scopes.push(Vec::new());
        proof {
            assert(self@ =~= old(self)@.push(Map::<Seq<char>, T>::empty()));
        }
    }

    /// Runs a piece of work inside a scope of its own: a frame is pushed,
    /// the work runs exactly once, the frame is popped — the table comes
    /// out exactly as it went in.
    pub fn scoped<F: FnOnce()>(&mut self, f: F)
        requires
            old(self)@.len() >= 1,
            call_requires(f, ()),
        ensures
            final(self)@ == old(self)@,
            call_ensures(f, (), ()),
    {
        self.push_scope();
        f();
        self.pop_scope();
        proof {
            assert(self@ =~= old(self)@);
        }
    }

    /// Drops the innermost frame; leaving a block scope. The global frame is
    /// never popped.
    pub fn pop_scope(&mut self)
        requires
            old(self)@.len() >= 2,
        ensures
            final(self)@ == old(self)@.drop_last(),
    {
        self.scopes.pop();
        proof {
            assert(self@ =~= old(self)@.drop_last());
        }
    }
}

impl<T: Clone> Memory<T> {
    /// Declares `key` in the innermost frame, shadowing any outer binding;
    /// hands back (a clone of) the value the innermost frame held before,
    /// if it held one.
    pub fn insert(&mut self, key: String, value: T) -> (r: Option<T>)
        requires
            old(self)@.len() >= 1,
        ensures
            final(self)@ == old(self)@.update(
                old(self)@.len() - 1,
                old(self)@.last().insert(key@, value),
            ),
            r is Some <==> old(self)@.last().contains_key(key@),
            r matches Some(v) ==> cloned(old(self)@.last()[key@], v),
    {
        let last = self.scopes.len() - 1;
        let previous: Option<T> = match frame_get(&self.scopes[last], &key) {
            Some(v) => Some(v.clone()),
            None => None,
        };
        let ghost old_frame = self.scopes@[last as int]@;
        let fr = &mut self.scopes[last];
        fr.push((key, value));
        proof {
            assert(self.scopes@[last as int]@.drop_last() =~= old_frame);
            assert(self@ =~= old(self)@.update(
                old(self)@.len() - 1,
                old(self)@.last().insert(key@, value),
            ));
        }
        previous
    }

    /// Mutates the innermost existing binding of `key`, wherever it lives in
    /// the stack, leaving the stack's shape unchanged; hands back (a clone
    /// of) the value that binding held before. A name bound nowhere leaves
    /// the table untouched and yields `None`.
    pub fn assign(&mut self, key: String, value: T) -> (r: Option<T>)
        requires
            old(self)@.len() >= 1,
        ensures
            final(self)@ == mem_assign(old(self)@, key@, value),
            final(self)@.len() == old(self)@.len(),
            r is Some <==> mem_lookup(old(self)@, key@) is Some,
            r matches Some(v) ==> cloned(mem_lookup(old(self)@, key@)->0, v),
            r is None ==> final(self)@ == old(self)@,
    {
        proof {
            lemma_mem_assign_len(old(self)@, key@, value);
        }
        let mut j: usize = self.scopes.len();
        while j > 0
            invariant
                j <= self.scopes@.len(),
                self@.len() == self.scopes@.len(),
                *self == *old(self),
                old(self)@.len() >= 1,
                forall|k: int| j <= k < self@.len() ==> !self@[k].contains_key(key@),
            decreases j,
        {
            j = j - 1;
            let previous: Option<T> = match frame_get(&self.scopes[j], &key) {
                Some(v) => Some(v.clone()),
                None => None,
            };
            if previous.is_some() {
                let ghost old_frame = self.scopes@[j as int]@;
                let fr = &mut self.scopes[j];
                fr.push((key, value));
                proof {
                    assert(self.scopes@[j as int]@.drop_last() =~= old_frame);
                    assert(self@ =~= old(self)@.update(
                        j as int,
                        old(self)@[j as int].insert(key@, value),
                    ));
                    lemma_mem_assign_at(old(self)@, key@, value, j as int);
                    lemma_mem_lookup_skip(old(self)@, key@, j + 1);
                    let pre = old(self)@.subrange(0, j + 1);
                    assert(pre.last() == old(self)@[j as int]);
                }
                return previous;
            }
        }
        proof {
            lemma_mem_lookup_skip(self@, key@, 0);
            assert(self@.subrange(0, 0) =~= Seq::<Map<Seq<char>, T>>::empty());
            lemma_mem_assign_absent(self@, key@, value);
        }
        None
    }
}

proof fn lemma_mem_assign_len<T>(m: Seq<Map<Seq<char>, T>>, key: Seq<char>, value: T)
    ensures
        mem_assign(m, key, value).len() == m.len(),
    decreases m.len(),
{
    if m.len() > 0 && !m.last().contains_key(key) {
        lemma_mem_assign_len(m.drop_last(), key, value);
    }
}

proof fn lemma_mem_assign_absent<T>(m: Seq<Map<Seq<char>, T>>, key: Seq<char>, value: T)
    requires
        forall|k: int| 0 <= k < m.len() ==> !m[k].contains_key(key),
    ensures
        mem_assign(m, key, value) == m,
    decreases m.len(),
{
    if m.len() > 0 {
        lemma_mem_assign_absent(m.drop_last(), key, value);
        assert(mem_assign(m, key, value) =~= m);
    }
}

} // verus!

//! Publishing accounts and the ordered, uniquely keyed set that holds them.

use vstd::prelude::*;

verus! {

/// One named credential pair for the publishing platform.
#[derive(Debug, PartialEq)]
pub struct WeChatAccount {
    pub name: String,
    pub app_id: String,
    pub app_secret: String,
    pub description: Option<String>,
}

impl Clone for WeChatAccount {
    fn clone(&self) -> (r: Self)
        ensures
            r == *self,
    {
        WeChatAccount {
            name: self.name.clone(),
            app_id: self.app_id.clone(),
            app_secret: self.app_secret.clone(),
            description: crate::text::clone_opt(&self.description),
        }
    }
}

/// Accounts keyed by name, in insertion order, each name present once.
#[derive(Debug)]
pub struct AccountMap {
    entries: Vec<(String, WeChatAccount)>,
}

/// The names of a sequence of entries, in order.
pub open spec fn names_of(s: Seq<(String, WeChatAccount)>) -> Seq<Seq<char>> {
    s.map_values(|e: (String, WeChatAccount)| e.0@)
}

/// No name occurs twice.
pub open spec fn unique_names(s: Seq<(String, WeChatAccount)>) -> bool {
    forall|i: int, j: int| 0 <= i < j < s.len() ==> s[i].0@ != s[j].0@
}

impl View for AccountMap {
    type V = Seq<(String, WeChatAccount)>;

    closed spec fn view(&self) -> Seq<(String, WeChatAccount)> {
        self.entries@
    }
}

impl AccountMap {
    #[verifier::type_invariant]
    spec fn inv(&self) -> bool {
        unique_names(self.entries@)
    }

    /// Whether an account is stored under `name`.
    pub open spec fn has(&self, name: Seq<char>) -> bool {
        exists|i: int| 0 <= i < self@.len() && #[trigger] self@[i].0@ == name
    }

    /// Position of the entry stored under `name`, if there is one.
    pub open spec fn index_of(&self, name: Seq<char>) -> int {
        choose|i: int| 0 <= i < self@.len() && #[trigger] self@[i].0@ == name
    }

    /// With unique names, the account at position `i` is the one stored
    /// under its name.
    pub proof fn lemma_lookup_at(&self, i: int)
        requires
            unique_names(self@),
            0 <= i < self@.len(),
        ensures
            self.lookup(self@[i].0@) == Some(self@[i].1),
    {
        let name = self@[i].0@;
        assert(self@[i].0@ == name);
        let k = self.index_of(name);
        assert(self@[k].0@ == name);
        if k != i {
            if k < i {
                assert(self@[k].0@ != self@[i].0@);
            } else {
                assert(self@[i].0@ != self@[k].0@);
            }
        }
    }

    /// The account stored under `name`.
    pub open spec fn lookup(&self, name: Seq<char>) -> Option<WeChatAccount> {
        if self.has(name) {
            Some(self@[self.index_of(name)].1)
        } else {
            None
        }
    }

    pub fn new() -> (r: Self)
        ensures
            r@ == Seq::<(String, WeChatAccount)>::empty(),
    {
        AccountMap { entries: Vec::new() }
    }

    /// A copy holding the same entries.
    pub fn duplicate(&self) -> (r: Self)
        ensures
            r@ == self@,
    {
        proof {
            use_type_invariant(self);
        }
        let mut entries: Vec<(String, WeChatAccount)> = Vec::new();
        let mut i: usize = 0;
        while i < self.entries.len()
            invariant
                i <= self.entries@.len(),
                entries@ == self.entries@.subrange(0, i as int),
            decreases self.entries@.len() - i,
        {
            let e = &self.entries[i];
            entries.push((e.0.clone(), e.1.clone()));
            proof {
                assert(self.entries@.subrange(0, i + 1) =~= self.entries@.subrange(0, i as int).push(self.entries@[i as int]));
            }
            i = i + 1;
        }
        assert(entries@ =~= self.entries@);
        AccountMap { entries }
    }

    pub fn len(&self) -> (r: usize)
        ensures
            r == self@.len(),
            unique_names(self@),
    {
        proof {
            use_type_invariant(self);
        }
        self.entries.len()
    }

    pub fn is_empty(&self) -> (r: bool)
        ensures
            r == (self@.len() == 0),
            unique_names(self@),
    {
        proof {
            use_type_invariant(self);
        }
        self.entries.len() == 0
    }

    fn find(&self, name: &str) -> (r: Option<usize>)
        ensures
            match r {
                Some(i) => i < self@.len() && self@[i as int].0@ == name@,
                None => !self.has(name@),
            },
    {
        let mut i: usize = 0;
        while i < self.entries.len()
            invariant
                i <= self.entries@.len(),
                forall|j: int| 0 <= j < i ==> self.entries@[j].0@ != name@,
            decreases self.entries@.len() - i,
        {
            if crate::text::str_eq(self.entries[i].0.as_str(), name) {
                return Some(i);
            }
            i = i + 1;
        }
        None
    }

    /// Stores `account` under `name`, replacing the account stored there
    /// before (which keeps its position), or else adding it at the end.
    pub fn insert(&mut self, name: String, account: WeChatAccount)
        ensures
            old(self).has(name@) ==> final(self)@ == old(self)@.update(
                old(self).index_of(name@),
                (name, account),
            ),
            !old(self).has(name@) ==> final(self)@ == old(self)@.push((name, account)),
    {
        proof {
            use_type_invariant(&*self);
        }
        let found = self.find(name.as_str());
        let mut entries: Vec<(String, WeChatAccount)> = Vec::new();
        std::mem::swap(&mut entries, &mut self.entries);
        match found {
            Some(i) => {
                proof {
                    let k = old(self).index_of(name@);
                    assert(old(self)@[k].0@ == name@);
                    assert(k == i);
                }
                entries.set(i, (name, account));
            },
            None => {
                entries.push((name, account));
            },
        }
        self.entries = entries;
    }

    /// The account stored under `name`.
    pub fn get(&self, name: &str) -> (r: Option<&WeChatAccount>)
        ensures
            r matches Some(a) ==> self.lookup(name@) == Some(*a),
            r is None ==> self.lookup(name@) is None,
            unique_names(self@),
    {
        proof {
            use_type_invariant(self);
        }
        match self.find(name) {
            Some(i) => {
                proof {
                    let k = self.index_of(name@);
                    assert(self@[k].0@ == name@);
                    assert(k == i);
                }
                Some(&self.entries[i].1)
            },
            None => None,
        }
    }

    /// The names, in order.
    pub fn names(&self) -> (r: Vec<String>)
        ensures
            r@.map_values(|s: String| s@) == names_of(self@),
            r@.len() == self@.len(),
            forall|j: int| 0 <= j < r@.len() ==> r@[j] == #[trigger] self@[j].0,
    {
        let mut r: Vec<String> = Vec::new();
        let mut i: usize = 0;
        while i < self.entries.len()
            invariant
                i <= self.entries@.len(),
                r@.len() == i,
                forall|j: int| 0 <= j < i ==> r@[j] == #[trigger] self.entries@[j].0,
            decreases self.entries@.len() - i,
        {
            r.push(self.entries[i].0.clone());
            i = i + 1;
        }
        assert(r@.map_values(|s: String| s@) =~= names_of(self@));
        r
    }

    /// The accounts, in order.
    pub fn accounts(&self) -> (r: Vec<&WeChatAccount>)
        ensures
            r@.len() == self@.len(),
            forall|j: int| 0 <= j < r@.len() ==> *r@[j] == #[trigger] self@[j].1,
    {
        let mut r: Vec<&WeChatAccount> = Vec::new();
        let mut i: usize = 0;
        while i < self.entries.len()
            invariant
                i <= self.entries@.len(),
                r@.len() == i,
                forall|j: int| 0 <= j < i ==> *r@[j] == #[trigger] self.entries@[j].1,
            decreases self.entries@.len() - i,
        {
            r.push(&self.entries[i].1);
            i = i + 1;
        }
        r
    }

    /// The first entry, if any.
    pub fn first(&self) -> (r: Option<&(String, WeChatAccount)>)
        ensures
            self@.len() == 0 ==> r is None,
            self@.len() > 0 ==> r == Some(&self@[0]),
            unique_names(self@),
    {
        proof {
            use_type_invariant(self);
        }
        if self.entries.len() == 0 {
            None
        } else {
            Some(&self.entries[0])
        }
    }
}

} // verus!

use vstd::prelude::*;

verus! {

/// The value of one header: HTTP Basic credentials (a user name with an empty
/// password), or raw text.
#[derive(Clone, Debug, PartialEq, Eq)]
pub enum HeaderValue {
    Basic(String),
    Text(String),
}

/// What a header value stands for, on sequences of characters.
pub enum HeaderValueModel {
    Basic(Seq<char>),
    Text(Seq<char>),
}

impl HeaderValue {
    pub open spec fn model(&self) -> HeaderValueModel {
        match self {
            HeaderValue::Basic(u) => HeaderValueModel::Basic(u@),
            HeaderValue::Text(t) => HeaderValueModel::Text(t@),
        }
    }
}

/// One header line: a name and its value.
#[derive(Clone, Debug)]
pub struct Header {
    pub name: String,
    pub value: HeaderValue,
}

impl Header {
    pub open spec fn model(&self) -> (Seq<char>, HeaderValueModel) {
        (self.name@, self.value.model())
    }
}

/// The headers of a request. No two entries share a name: setting a header
/// replaces the entry of that name, if any, and otherwise adds one.
#[derive(Clone, Debug)]
pub struct Headers {
    pub entries: Vec<Header>,
}

impl Headers {
    /// The entries, in order, as (name, value) pairs.
    pub open spec fn view(&self) -> Seq<(Seq<char>, HeaderValueModel)> {
        self.entries@.map_values(|h: Header| h.model())
    }

    /// No two entries share a name.
    pub open spec fn wf(&self) -> bool {
        forall|i: int, j: int|
            0 <= i < self.view().len() && 0 <= j < self.view().len() && i != j
                ==> #[trigger] self.view()[i].0 != #[trigger] self.view()[j].0
    }

    /// Some entry is named `name` and holds `value`.
    pub open spec fn has(&self, name: Seq<char>, value: HeaderValueModel) -> bool {
        exists|k: int| 0 <= k < self.view().len() && #[trigger] self.view()[k] == (name, value)
    }

    /// Some entry is named `name`.
    pub open spec fn has_name(&self, name: Seq<char>) -> bool {
        exists|k: int| 0 <= k < self.view().len() && #[trigger] self.view()[k].0 == name
    }

    pub fn new() -> (r: Headers)
        ensures
            r.wf(),
            r.view().len() == 0,
    {
        Headers { entries: Vec::new() }
    }

    /// Sets the header `name` to `value`, replacing the entry of that name in
    /// place where there is one, and adding one at the end otherwise.
    pub fn set(&mut self, name: String, value: HeaderValue)
        requires
            old(self).wf(),
        ensures
            final(self).wf(),
            final(self).has(name@, value.model()),
            // entries of other names are kept, and none is added
            forall|n: Seq<char>, v: HeaderValueModel|
                #![trigger final(self).has(n, v)]
                #![trigger old(self).has(n, v)]
                n != name@ ==> (final(self).has(n, v) == old(self).has(n, v)),
            forall|n: Seq<char>|
                #![trigger final(self).has_name(n)]
                #![trigger old(self).has_name(n)]
                n != name@ ==> (final(self).has_name(n) == old(self).has_name(n)),
            !old(self).has_name(name@) ==> final(self).view() == old(self).view().push(
                (name@, value.model()),
            ),
            // setting a header that already holds the value changes nothing
            old(self).has(name@, value.model()) ==> final(self).view() == old(self).view(),
    {
        let n = self.entries.len();
        let mut i: usize = 0;
        let mut found = false;
        while i < n && !found
            invariant
                n == self.entries.len(),
                i <= n,
                found ==> i < n && self.view()[i as int].0 == name@,
                forall|j: int| 0 <= j < i ==> (#[trigger] self.view()[j]).0 != name@,
            decreases n - i + (if found { 0int } else { 1int }),
        {
            if self.entries[i].name == name {
                found = true;
            } else {
                i = i + 1;
            }
        }
        let ghost before = self.view();
        let entry = Header { name, value };
        if found {
            self.entries.set(i, entry);
        } else {
            self.entries.push(entry);
        }
        proof {
            let after = self.view();
            if found {
                assert(after == before.update(i as int, entry.model()));
            } else {
                assert(after == before.push(entry.model()));
            }
            assert(after[i as int] == entry.model());
            assert forall|k: int| 0 <= k < before.len() && before[k].0 != entry.name@ implies #[trigger] after[k] == before[k] by {
                if found {
                    assert(k != i);
                }
            }
            assert forall|k: int| 0 <= k < after.len() && after[k].0 != entry.name@ implies k < before.len() && #[trigger] after[k] == before[k] by {
                if !found {
                    assert(k != i);
                }
            }
            assert forall|n: Seq<char>, v: HeaderValueModel| n != entry.name@ implies (self.has(n, v) == old(self).has(n, v)) by {
                if old(self).has(n, v) {
                    let k = choose|k: int| 0 <= k < before.len() && #[trigger] before[k] == (n, v);
                    assert(after[k] == before[k]);
                }
                if self.has(n, v) {
                    let k = choose|k: int| 0 <= k < after.len() && #[trigger] after[k] == (n, v);
                    assert(after[k] == before[k]);
                }
            }
            assert forall|n: Seq<char>| n != entry.name@ implies (self.has_name(n) == old(self).has_name(n)) by {
                if old(self).has_name(n) {
                    let k = choose|k: int| 0 <= k < before.len() && #[trigger] before[k].0 == n;
                    assert(after[k] == before[k]);
                }
                if self.has_name(n) {
                    let k = choose|k: int| 0 <= k < after.len() && #[trigger] after[k].0 == n;
                    assert(after[k] == before[k]);
                }
            }
            if !old(self).has_name(entry.name@) && found {
                assert(before[i as int].0 == entry.name@);
            }
            if old(self).has(entry.name@, entry.value.model()) {
                let k = choose|k: int| 0 <= k < before.len() && #[trigger] before[k] == (entry.name@, entry.value.model());
                assert(before[k].0 == entry.name@);
                if found {
                    assert(before[i as int].0 == before[k].0);
                }
                assert(k == i);
                assert(after =~= before);
            }
        }
    }
}

} // verus!

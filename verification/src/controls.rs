//! The control table: a finished screen description.  Each control owns a
//! field table, a string-keyed bag of raw field values; the table of controls
//! is keyed by control name.  Both are modelled as maps from character
//! sequences, with keys unique, last write winning.

use vstd::prelude::*;

verus! {

/// The kind of a control, deciding which fields matter and how it is drawn.
#[derive(Clone, Copy, PartialEq, Eq, Structural, Debug)]
pub enum ControlType {
    PictureBox,
    Label,
    Button,
}

impl Default for ControlType {
    fn default() -> (r: Self)
        ensures
            r == ControlType::PictureBox,
    {
        ControlType::PictureBox
    }
}

/// A control's raw field values, keyed by lower-cased field name.
pub struct Fields {
    entries: Vec<(String, String)>,
}

/// The map a sequence of key/value pairs denotes, later pairs overwriting
/// earlier ones.
pub open spec fn entries_map(s: Seq<(String, String)>) -> Map<Seq<char>, Seq<char>>
    decreases s.len(),
{
    if s.len() == 0 {
        Map::empty()
    } else {
        entries_map(s.drop_last()).insert(s.last().0@, s.last().1@)
    }
}

pub open spec fn unique_keys(s: Seq<(String, String)>) -> bool {
    forall|i: int, j: int| 0 <= i < j < s.len() ==> (#[trigger] s[i]).0@ != (#[trigger] s[j]).0@
}

proof fn lemma_entries_map_domain(s: Seq<(String, String)>, k: Seq<char>)
    ensures
        entries_map(s).contains_key(k) == exists|i: int| 0 <= i < s.len() && (#[trigger] s[i]).0@ == k,
    decreases s.len(),
{
    if s.len() > 0 {
        lemma_entries_map_domain(s.drop_last(), k);
        if s.last().0@ == k {
            assert(s[s.len() - 1].0@ == k);
        } else {
            if entries_map(s).contains_key(k) {
                assert(exists|i: int| 0 <= i < s.len() - 1 && (#[trigger] s.drop_last()[i]).0@ == k);
                let i = choose|i: int| 0 <= i < s.len() - 1 && (#[trigger] s.drop_last()[i]).0@ == k;
                assert(s[i].0@ == k);
            }
            if exists|i: int| 0 <= i < s.len() && (#[trigger] s[i]).0@ == k {
                let i = choose|i: int| 0 <= i < s.len() && (#[trigger] s[i]).0@ == k;
                assert(i < s.len() - 1);
                assert(s.drop_last()[i].0@ == k);
            }
        }
    }
}

proof fn lemma_entries_map_at(s: Seq<(String, String)>, i: int)
    requires
        unique_keys(s),
        0 <= i < s.len(),
    ensures
        entries_map(s).contains_key(s[i].0@),
        entries_map(s)[s[i].0@] == s[i].1@,
    decreases s.len(),
{
    if i == s.len() - 1 {
    } else {
        assert(unique_keys(s.drop_last())) by {
            assert(forall|a: int, b: int|
                0 <= a < b < s.len() - 1 ==> (#[trigger] s.drop_last()[a]).0@
                    != (#[trigger] s.drop_last()[b]).0@);
        }
        assert(s.drop_last()[i] == s[i]);
        lemma_entries_map_at(s.drop_last(), i);
        assert(s[i].0@ != s.last().0@);
    }
}

proof fn lemma_entries_map_update(s: Seq<(String, String)>, i: int, p: (String, String))
    requires
        unique_keys(s),
        0 <= i < s.len(),
        s[i].0@ == p.0@,
    ensures
        entries_map(s.update(i, p)) == entries_map(s).insert(p.0@, p.1@),
    decreases s.len(),
{
    let u = s.update(i, p);
    if i == s.len() - 1 {
        assert(u.drop_last() =~= s.drop_last());
        assert(u.last() == p);
        assert(entries_map(u) == entries_map(s.drop_last()).insert(p.0@, p.1@));
        assert(entries_map(s.drop_last()).insert(p.0@, p.1@) =~= entries_map(s.drop_last()).insert(
            s.last().0@,
            s.last().1@,
        ).insert(p.0@, p.1@));
    } else {
        assert(unique_keys(s.drop_last())) by {
            assert(forall|a: int, b: int|
                0 <= a < b < s.len() - 1 ==> (#[trigger] s.drop_last()[a]).0@
                    != (#[trigger] s.drop_last()[b]).0@);
        }
        assert(s.drop_last()[i] == s[i]);
        lemma_entries_map_update(s.drop_last(), i, p);
        assert(u.drop_last() =~= s.drop_last().update(i, p));
        assert(u.last() == s.last());
        assert(s.last().0@ != p.0@);
        assert(entries_map(u) == entries_map(s.drop_last()).insert(p.0@, p.1@).insert(
            s.last().0@,
            s.last().1@,
        ));
        assert(entries_map(s.drop_last()).insert(p.0@, p.1@).insert(s.last().0@, s.last().1@)
            =~= entries_map(s.drop_last()).insert(s.last().0@, s.last().1@).insert(p.0@, p.1@));
    }
}

impl View for Fields {
    type V = Map<Seq<char>, Seq<char>>;

    closed spec fn view(&self) -> Map<Seq<char>, Seq<char>> {
        entries_map(self.entries@)
    }
}

impl Fields {
    /// Internal shape: one entry per key.
    pub closed spec fn wf(&self) -> bool {
        unique_keys(self.entries@)
    }

    pub fn new() -> (r: Fields)
        ensures
            r.wf(),
            r@ == Map::<Seq<char>, Seq<char>>::empty(),
    {
        Fields { entries: Vec::new() }
    }

    /// Stores a value under a key, overwriting any previous value.
    pub fn insert(&mut self, key: String, value: String)
        requires
            old(self).wf(),
        ensures
            final(self).wf(),
            final(self)@ == old(self)@.insert(key@, value@),
    {
        let n = self.entries.len();
        let mut i: usize = 0;
        while i < n
            invariant
                n == self.entries@.len(),
                0 <= i <= n,
                unique_keys(self.entries@),
                entries_map(self.entries@) == old(self)@,
                forall|k: int| 0 <= k < i ==> (#[trigger] self.entries@[k]).0@ != key@,
            decreases n - i,
        {
            if crate::text::str_eq(self.entries[i].0.as_str(), key.as_str()) {
                proof {
                    lemma_entries_map_update(self.entries@, i as int, (key, value));
                }
                self.entries.set(i, (key, value));
                return;
            }
            i = i + 1;
        }
        proof {
            assert(self.entries@.push((key, value)).drop_last() =~= self.entries@);
            assert(forall|a: int, b: int|
                0 <= a < b < self.entries@.push((key, value)).len() ==> (#[trigger] self.entries@.push(
                    (key, value),
                )[a]).0@ != (#[trigger] self.entries@.push((key, value))[b]).0@);
        }
        self.entries.push((key, value));
    }

    /// The stored value under `name`; total form.
    pub fn get_opt(&self, name: &str) -> (r: Option<&String>)
        requires
            self.wf(),
        ensures
            match r {
                Some(v) => self@.contains_key(name@) && v@ == self@[name@],
                None => !self@.contains_key(name@),
            },
    {
        let n = self.entries.len();
        let mut i: usize = 0;
        while i < n
            invariant
                n == self.entries@.len(),
                0 <= i <= n,
                unique_keys(self.entries@),
                forall|k: int| 0 <= k < i ==> (#[trigger] self.entries@[k]).0@ != name@,
            decreases n - i,
        {
            if crate::text::str_eq(self.entries[i].0.as_str(), name) {
                proof {
                    lemma_entries_map_at(self.entries@, i as int);
                }
                return Some(&self.entries[i].1);
            }
            i = i + 1;
        }
        proof {
            lemma_entries_map_domain(self.entries@, name@);
        }
        None
    }

    /// The stored value under `name`; the caller must know the key exists.
    pub fn get_by_name(&self, name: &str) -> (r: &String)
        requires
            self.wf(),
            self@.contains_key(name@),
        ensures
            r@ == self@[name@],
    {
        match self.get_opt(name) {
            Some(v) => v,
            None => {
                proof {
                    assert(false);
                }
                unreached()
            },
        }
    }

    /// How many distinct fields are stored.
    pub fn len(&self) -> (r: usize)
        requires
            self.wf(),
        ensures
            r == self@.dom().len(),
    {
        proof {
            lemma_entries_map_card(self.entries@);
        }
        self.entries.len()
    }
}

proof fn lemma_entries_map_card(s: Seq<(String, String)>)
    requires
        unique_keys(s),
    ensures
        entries_map(s).dom().len() == s.len(),
        entries_map(s).dom().finite(),
    decreases s.len(),
{
    if s.len() > 0 {
        assert(unique_keys(s.drop_last())) by {
            assert(forall|a: int, b: int|
                0 <= a < b < s.len() - 1 ==> (#[trigger] s.drop_last()[a]).0@
                    != (#[trigger] s.drop_last()[b]).0@);
        }
        lemma_entries_map_card(s.drop_last());
        lemma_entries_map_domain(s.drop_last(), s.last().0@);
        assert(forall|i: int| 0 <= i < s.len() - 1 ==> (#[trigger] s.drop_last()[i]).0@ != s.last().0@)
            by {
            assert(forall|i: int| 0 <= i < s.len() - 1 ==> s.drop_last()[i] == s[i]);
        }
        assert(!entries_map(s.drop_last()).contains_key(s.last().0@));
    }
}

/// One control: its kind, its name, and its raw fields.
pub struct Control {
    pub control_type: ControlType,
    pub name: String,
    pub fields: Fields,
}

/// The mathematical shadow of a control.
pub ghost struct ControlModel {
    pub kind: ControlType,
    pub name: Seq<char>,
    pub fields: Map<Seq<char>, Seq<char>>,
}

impl View for Control {
    type V = ControlModel;

    open spec fn view(&self) -> ControlModel {
        ControlModel { kind: self.control_type, name: self.name@, fields: self.fields@ }
    }
}

impl Control {
    pub open spec fn wf(&self) -> bool {
        self.fields.wf()
    }
}

impl Default for Control {
    fn default() -> (r: Self)
        ensures
            r.wf(),
            r@.kind == ControlType::PictureBox,
            r@.name == Seq::<char>::empty(),
            r@.fields == Map::<Seq<char>, Seq<char>>::empty(),
    {
        Control { control_type: ControlType::PictureBox, name: String::new(), fields: Fields::new() }
    }
}

/// The map a sequence of controls denotes, keyed by name, later controls
/// overwriting earlier ones of the same name.
pub open spec fn controls_map(s: Seq<ControlModel>) -> Map<Seq<char>, ControlModel>
    decreases s.len(),
{
    if s.len() == 0 {
        Map::empty()
    } else {
        controls_map(s.drop_last()).insert(s.last().name, s.last())
    }
}

pub open spec fn unique_names(s: Seq<ControlModel>) -> bool {
    forall|i: int, j: int| 0 <= i < j < s.len() ==> (#[trigger] s[i]).name != (#[trigger] s[j]).name
}

proof fn lemma_controls_map_domain(s: Seq<ControlModel>, k: Seq<char>)
    ensures
        controls_map(s).contains_key(k) == exists|i: int| 0 <= i < s.len() && (#[trigger] s[i]).name
            == k,
    decreases s.len(),
{
    if s.len() > 0 {
        lemma_controls_map_domain(s.drop_last(), k);
        if s.last().name == k {
            assert(s[s.len() - 1].name == k);
        } else {
            if controls_map(s).contains_key(k) {
                let i = choose|i: int| 0 <= i < s.len() - 1 && (#[trigger] s.drop_last()[i]).name == k;
                assert(s[i].name == k);
            }
            if exists|i: int| 0 <= i < s.len() && (#[trigger] s[i]).name == k {
                let i = choose|i: int| 0 <= i < s.len() && (#[trigger] s[i]).name == k;
                assert(i < s.len() - 1);
                assert(s.drop_last()[i].name == k);
            }
        }
    }
}

proof fn lemma_controls_map_at(s: Seq<ControlModel>, i: int)
    requires
        unique_names(s),
        0 <= i < s.len(),
    ensures
        controls_map(s).contains_key(s[i].name),
        controls_map(s)[s[i].name] == s[i],
    decreases s.len(),
{
    if i == s.len() - 1 {
    } else {
        assert(unique_names(s.drop_last())) by {
            assert(forall|a: int, b: int|
                0 <= a < b < s.len() - 1 ==> (#[trigger] s.drop_last()[a]).name
                    != (#[trigger] s.drop_last()[b]).name);
        }
        assert(s.drop_last()[i] == s[i]);
        lemma_controls_map_at(s.drop_last(), i);
        assert(s[i].name != s.last().name);
    }
}

proof fn lemma_controls_map_update(s: Seq<ControlModel>, i: int, c: ControlModel)
    requires
        unique_names(s),
        0 <= i < s.len(),
        s[i].name == c.name,
    ensures
        controls_map(s.update(i, c)) == controls_map(s).insert(c.name, c),
    decreases s.len(),
{
    let u = s.update(i, c);
    if i == s.len() - 1 {
        assert(u.drop_last() =~= s.drop_last());
        assert(u.last() == c);
        assert(controls_map(s.drop_last()).insert(c.name, c) =~= controls_map(
            s.drop_last(),
        ).insert(s.last().name, s.last()).insert(c.name, c));
    } else {
        assert(unique_names(s.drop_last())) by {
            assert(forall|a: int, b: int|
                0 <= a < b < s.len() - 1 ==> (#[trigger] s.drop_last()[a]).name
                    != (#[trigger] s.drop_last()[b]).name);
        }
        assert(s.drop_last()[i] == s[i]);
        lemma_controls_map_update(s.drop_last(), i, c);
        assert(u.drop_last() =~= s.drop_last().update(i, c));
        assert(u.last() == s.last());
        assert(s.last().name != c.name);
        assert(controls_map(u) == controls_map(s.drop_last()).insert(c.name, c).insert(
            s.last().name,
            s.last(),
        ));
        assert(controls_map(s.drop_last()).insert(c.name, c).insert(s.last().name, s.last())
            =~= controls_map(s.drop_last()).insert(s.last().name, s.last()).insert(c.name, c));
    }
}

/// The finished table of controls, keyed by control name.
pub struct Controls {
    map: Vec<Control>,
}

impl View for Controls {
    type V = Map<Seq<char>, ControlModel>;

    closed spec fn view(&self) -> Map<Seq<char>, ControlModel> {
        controls_map(self.map@.map_values(|c: Control| c@))
    }
}

impl Controls {
    pub closed spec fn wf(&self) -> bool {
        unique_names(self.map@.map_values(|c: Control| c@)) && forall|i: int|
            0 <= i < self.map@.len() ==> (#[trigger] self.map@[i]).wf()
    }

    pub fn new() -> (r: Controls)
        ensures
            r.wf(),
            r@ == Map::<Seq<char>, ControlModel>::empty(),
    {
        proof {
            assert(Seq::<Control>::empty().map_values(|c: Control| c@) =~= Seq::<
                ControlModel,
            >::empty());
        }
        Controls { map: Vec::new() }
    }

    /// Stores a control under its name, overwriting any previous control of
    /// that name.
    pub fn insert(&mut self, c: Control)
        requires
            old(self).wf(),
            c.wf(),
        ensures
            final(self).wf(),
            final(self)@ == old(self)@.insert(c@.name, c@),
    {
        let ghost models = self.map@.map_values(|x: Control| x@);
        let n = self.map.len();
        let mut i: usize = 0;
        while i < n
            invariant
                n == self.map@.len(),
                0 <= i <= n,
                self == old(self),
                self.wf(),
                c.wf(),
                forall|k: int| 0 <= k < i ==> (#[trigger] self.map@[k])@.name != c@.name,
            decreases n - i,
        {
            if crate::text::str_eq(self.map[i].name.as_str(), c.name.as_str()) {
                proof {
                    let ms = self.map@.map_values(|x: Control| x@);
                    assert(ms[i as int] == self.map@[i as int]@);
                    lemma_controls_map_update(ms, i as int, c@);
                    assert(self.map@.update(i as int, c).map_values(|x: Control| x@)
                        =~= ms.update(i as int, c@));
                }
                self.map.set(i, c);
                return;
            }
            i = i + 1;
        }
        proof {
            let ms = self.map@.map_values(|x: Control| x@);
            assert(self.map@.push(c).map_values(|x: Control| x@) =~= ms.push(c@));
            assert(ms.push(c@).drop_last() =~= ms);
            assert(forall|a: int, b: int|
                0 <= a < b < ms.push(c@).len() ==> (#[trigger] ms.push(c@)[a]).name
                    != (#[trigger] ms.push(c@)[b]).name);
        }
        self.map.push(c);
    }

    /// The control stored under `name`; total form.
    pub fn get_opt(&self, name: &str) -> (r: Option<&Control>)
        requires
            self.wf(),
        ensures
            match r {
                Some(c) => self@.contains_key(name@) && c@ == self@[name@] && c.wf(),
                None => !self@.contains_key(name@),
            },
    {
        let n = self.map.len();
        let mut i: usize = 0;
        while i < n
            invariant
                n == self.map@.len(),
                0 <= i <= n,
                self.wf(),
                forall|k: int| 0 <= k < i ==> (#[trigger] self.map@[k])@.name != name@,
            decreases n - i,
        {
            if crate::text::str_eq(self.map[i].name.as_str(), name) {
                proof {
                    let ms = self.map@.map_values(|x: Control| x@);
                    assert(ms[i as int] == self.map@[i as int]@);
                    lemma_controls_map_at(ms, i as int);
                }
                return Some(&self.map[i]);
            }
            i = i + 1;
        }
        proof {
            let ms = self.map@.map_values(|x: Control| x@);
            lemma_controls_map_domain(ms, name@);
            assert(forall|k: int| 0 <= k < ms.len() ==> ms[k] == (#[trigger] self.map@[k])@);
        }
        None
    }

    /// The control stored under `name`; the caller must know it exists.
    pub fn get_by_name(&self, name: String) -> (r: &Control)
        requires
            self.wf(),
            self@.contains_key(name@),
        ensures
            r@ == self@[name@],
            r.wf(),
    {
        match self.get_opt(name.as_str()) {
            Some(c) => c,
            None => {
                proof {
                    assert(false);
                }
                unreached()
            },
        }
    }

    /// How many controls the table holds.
    pub fn len(&self) -> (r: usize)
        ensures
            r == self.spec_len(),
    {
        self.map.len()
    }

    pub closed spec fn spec_len(&self) -> nat {
        self.map@.len()
    }

    /// The control at a position, for walking the whole table.
    pub fn get_at(&self, i: usize) -> (r: &Control)
        requires
            self.wf(),
            i < self.spec_len(),
        ensures
            r.wf(),
            self@.contains_key(r@.name),
            self@[r@.name] == r@,
    {
        proof {
            let ms = self.map@.map_values(|x: Control| x@);
            assert(ms[i as int] == self.map@[i as int]@);
            lemma_controls_map_at(ms, i as int);
        }
        &self.map[i]
    }
}

} // verus!

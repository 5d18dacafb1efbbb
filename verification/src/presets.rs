use vstd::prelude::*;

use crate::error::T4lError;
use vstd::std_specs::cmp::PartialEqSpecImpl;

verus! {

/// A named camera position: pan, tilt and zoom as the camera reports them.
#[derive(Clone, Debug)]
pub struct CustomPreset {
    pub name: String,
    pub pan: i32,
    pub tilt: i32,
    pub zoom: i32,
}

/// The mathematical value of a preset.
pub struct PresetView {
    pub name: Seq<char>,
    pub pan: i32,
    pub tilt: i32,
    pub zoom: i32,
}

impl View for CustomPreset {
    type V = PresetView;

    open spec fn view(&self) -> PresetView {
        PresetView { name: self.name@, pan: self.pan, tilt: self.tilt, zoom: self.zoom }
    }
}

impl CustomPreset {
    /// A preset with the given name and position.
    pub fn new(name: &str, pan: i32, tilt: i32, zoom: i32) -> (r: CustomPreset)
        ensures
            r@ == (PresetView { name: name@, pan, tilt, zoom }),
    {
        CustomPreset { name: name.to_owned(), pan, tilt, zoom }
    }

    /// An exact copy of the preset.
    pub fn duplicate(&self) -> (r: CustomPreset)
        ensures
            r@ == self@,
    {
        CustomPreset { name: self.name.clone(), pan: self.pan, tilt: self.tilt, zoom: self.zoom }
    }
}

/// The index of the first preset named `name` in `s`, or -1 where no preset has that name.
pub open spec fn name_index(s: Seq<PresetView>, name: Seq<char>) -> int
    decreases s.len(),
{
    if s.len() == 0 {
        -1
    } else {
        let r = name_index(s.drop_last(), name);
        if r >= 0 {
            r
        } else if s.last().name == name {
            s.len() - 1
        } else {
            -1
        }
    }
}

/// The first preset named `name`, if any.
pub open spec fn find_spec(s: Seq<PresetView>, name: Seq<char>) -> Option<PresetView> {
    let i = name_index(s, name);
    if i >= 0 {
        Some(s[i])
    } else {
        None
    }
}

/// The list after saving `p`: the first preset of the same name is replaced in
/// place, or, where there is none, `p` is appended.
pub open spec fn saved_spec(s: Seq<PresetView>, p: PresetView) -> Seq<PresetView> {
    let i = name_index(s, p.name);
    if i >= 0 {
        s.update(i, p)
    } else {
        s.push(p)
    }
}

/// The list after deleting the first preset named `name`; unchanged where there is none.
pub open spec fn deleted_spec(s: Seq<PresetView>, name: Seq<char>) -> Seq<PresetView> {
    let i = name_index(s, name);
    if i >= 0 {
        s.remove(i)
    } else {
        s
    }
}

/// Whether `s` contains a preset named `name`.
pub open spec fn has_name(s: Seq<PresetView>, name: Seq<char>) -> bool {
    exists|i: int| 0 <= i < s.len() && #[trigger] s[i].name == name
}

/// No two presets of `s` share a name.
pub open spec fn names_unique(s: Seq<PresetView>) -> bool {
    forall|i: int, j: int| 0 <= i < s.len() && 0 <= j < s.len() && i != j ==> #[trigger] s[i].name != #[trigger] s[j].name
}

/// `name_index` gives the first preset of that name, and -1 exactly when there is none.
pub proof fn lemma_name_index(s: Seq<PresetView>, name: Seq<char>)
    ensures
        -1 <= name_index(s, name) < s.len(),
        name_index(s, name) >= 0 ==> s[name_index(s, name)].name == name,
        forall|j: int| 0 <= j < name_index(s, name) ==> #[trigger] s[j].name != name,
        name_index(s, name) == -1 ==> forall|j: int| 0 <= j < s.len() ==> #[trigger] s[j].name != name,
        name_index(s, name) == -1 <==> !has_name(s, name),
    decreases s.len(),
{
    if s.len() > 0 {
        let t = s.drop_last();
        lemma_name_index(t, name);
        assert forall|j: int| 0 <= j < t.len() implies #[trigger] t[j] == s[j] by {}
        let r = name_index(t, name);
        if r >= 0 {
            assert forall|j: int| 0 <= j < r implies #[trigger] s[j].name != name by {
                assert(t[j] == s[j]);
            }
            assert(has_name(s, name)) by {
                assert(s[r].name == name);
            }
        } else if s.last().name == name {
            assert forall|j: int| 0 <= j < s.len() - 1 implies #[trigger] s[j].name != name by {
                assert(t[j] == s[j]);
            }
            assert(has_name(s, name)) by {
                assert(s[s.len() - 1].name == name);
            }
        } else {
            assert forall|j: int| 0 <= j < s.len() implies #[trigger] s[j].name != name by {
                if j < s.len() - 1 {
                    assert(t[j] == s[j]);
                }
            }
            assert(!has_name(s, name));
        }
    }
}

/// A preset at index `i` named `name` with no earlier preset of that name is what `name_index` finds.
pub proof fn lemma_first_is_name_index(s: Seq<PresetView>, name: Seq<char>, i: int)
    requires
        0 <= i < s.len(),
        s[i].name == name,
        forall|j: int| 0 <= j < i ==> #[trigger] s[j].name != name,
    ensures
        name_index(s, name) == i,
{
    lemma_name_index(s, name);
}

/// Saving a preset makes it the one found under its name.
pub proof fn law_save_then_find(s: Seq<PresetView>, p: PresetView)
    ensures
        find_spec(saved_spec(s, p), p.name) == Some(p),
{
    lemma_name_index(s, p.name);
    let t = saved_spec(s, p);
    let i = name_index(s, p.name);
    if i >= 0 {
        assert forall|j: int| 0 <= j < i implies #[trigger] t[j].name != p.name by {
            assert(t[j] == s[j]);
        }
        lemma_first_is_name_index(t, p.name, i);
    } else {
        assert forall|j: int| 0 <= j < s.len() implies #[trigger] t[j].name != p.name by {
            assert(t[j] == s[j]);
        }
        lemma_first_is_name_index(t, p.name, s.len() as int);
    }
}

/// Saving a preset leaves what is found under every other name unchanged.
pub proof fn law_save_keeps_other_names(s: Seq<PresetView>, p: PresetView, name: Seq<char>)
    requires
        name != p.name,
    ensures
        find_spec(saved_spec(s, p), name) == find_spec(s, name),
{
    lemma_name_index(s, p.name);
    lemma_name_index(s, name);
    let t = saved_spec(s, p);
    lemma_name_index(t, name);
    let i = name_index(s, p.name);
    let k = name_index(s, name);
    assert forall|j: int| 0 <= j < s.len() && j != i implies #[trigger] t[j] == s[j] by {}
    if k >= 0 {
        assert(k != i);
        assert forall|j: int| 0 <= j < k implies #[trigger] t[j].name != name by {
            if j != i {
                assert(t[j] == s[j]);
            }
        }
        assert(t[k] == s[k]);
        lemma_first_is_name_index(t, name, k);
    } else {
        if name_index(t, name) >= 0 {
            let m = name_index(t, name);
            if m < s.len() && m != i {
                assert(t[m] == s[m]);
                assert(s[m].name != name);
            }
            assert(false);
        }
    }
}

/// Saving two presets of the same name one after the other leaves the store as
/// saving the second alone: the second overwrites the first.
pub proof fn law_save_overwrites(s: Seq<PresetView>, p: PresetView, q: PresetView)
    requires
        p.name == q.name,
    ensures
        saved_spec(saved_spec(s, p), q) == saved_spec(s, q),
{
    lemma_name_index(s, p.name);
    law_save_then_find(s, p);
    let t = saved_spec(s, p);
    lemma_name_index(t, p.name);
    let i = name_index(s, p.name);
    if i >= 0 {
        assert(name_index(t, q.name) == i) by {
            assert forall|j: int| 0 <= j < i implies #[trigger] t[j].name != p.name by {
                assert(t[j] == s[j]);
            }
            lemma_first_is_name_index(t, p.name, i);
        }
        assert(saved_spec(t, q) =~= saved_spec(s, q));
    } else {
        assert(name_index(t, q.name) == s.len()) by {
            assert forall|j: int| 0 <= j < s.len() implies #[trigger] t[j].name != p.name by {
                assert(t[j] == s[j]);
            }
            lemma_first_is_name_index(t, p.name, s.len() as int);
        }
        assert(saved_spec(t, q) =~= saved_spec(s, q));
    }
}

/// Saving adds an entry exactly when no preset of that name was stored.
pub proof fn law_save_len(s: Seq<PresetView>, p: PresetView)
    ensures
        saved_spec(s, p).len() == if has_name(s, p.name) { s.len() } else { s.len() + 1 },
{
    lemma_name_index(s, p.name);
}

/// Saving keeps the names of a store distinct.
pub proof fn law_save_keeps_names_unique(s: Seq<PresetView>, p: PresetView)
    requires
        names_unique(s),
    ensures
        names_unique(saved_spec(s, p)),
{
    lemma_name_index(s, p.name);
    let t = saved_spec(s, p);
    let i = name_index(s, p.name);
    assert forall|a: int, b: int| 0 <= a < t.len() && 0 <= b < t.len() && a != b implies #[trigger] t[a].name != #[trigger] t[b].name by {
        if i >= 0 {
            if a == i {
                assert(s[b].name != s[i].name);
            } else if b == i {
                assert(s[a].name != s[i].name);
            }
        } else {
            if a == s.len() {
                assert(s[b].name != p.name);
            } else if b == s.len() {
                assert(s[a].name != p.name);
            }
        }
    }
}

/// Deleting keeps the names of a store distinct.
pub proof fn law_delete_keeps_names_unique(s: Seq<PresetView>, name: Seq<char>)
    requires
        names_unique(s),
    ensures
        names_unique(deleted_spec(s, name)),
{
    lemma_name_index(s, name);
    let t = deleted_spec(s, name);
    let i = name_index(s, name);
    if i >= 0 {
        assert forall|a: int, b: int| 0 <= a < t.len() && 0 <= b < t.len() && a != b implies #[trigger] t[a].name != #[trigger] t[b].name by {
            let sa = if a < i { a } else { a + 1 };
            let sb = if b < i { b } else { b + 1 };
            assert(t[a] == s[sa]);
            assert(t[b] == s[sb]);
            assert(s[sa].name != s[sb].name);
        }
    }
}

/// In a store whose names are distinct, no preset of a deleted name remains.
pub proof fn law_delete_removes_name(s: Seq<PresetView>, name: Seq<char>)
    requires
        names_unique(s),
    ensures
        find_spec(deleted_spec(s, name), name) is None,
        !has_name(deleted_spec(s, name), name),
{
    lemma_name_index(s, name);
    let t = deleted_spec(s, name);
    let i = name_index(s, name);
    if i >= 0 {
        assert forall|j: int| 0 <= j < t.len() implies #[trigger] t[j].name != name by {
            if j < i {
                assert(t[j] == s[j]);
            } else {
                assert(t[j] == s[j + 1]);
                assert(s[j + 1].name != s[i].name);
            }
        }
    }
    lemma_name_index(t, name);
}

/// Deleting a preset leaves what is found under every other name unchanged.
pub proof fn law_delete_keeps_other_names(s: Seq<PresetView>, name: Seq<char>, other: Seq<char>)
    requires
        other != name,
    ensures
        find_spec(deleted_spec(s, name), other) == find_spec(s, other),
{
    lemma_name_index(s, name);
    lemma_name_index(s, other);
    let t = deleted_spec(s, name);
    lemma_name_index(t, other);
    let i = name_index(s, name);
    let k = name_index(s, other);
    if i >= 0 {
        if k >= 0 {
            assert(k != i);
            let tk = if k < i { k } else { k - 1 };
            assert(t[tk] == s[k]);
            assert forall|j: int| 0 <= j < tk implies #[trigger] t[j].name != other by {
                if j < i {
                    assert(t[j] == s[j]);
                } else {
                    assert(t[j] == s[j + 1]);
                }
            }
            lemma_first_is_name_index(t, other, tk);
        } else {
            if name_index(t, other) >= 0 {
                let m = name_index(t, other);
                if m < i {
                    assert(t[m] == s[m]);
                } else {
                    assert(t[m] == s[m + 1]);
                }
                assert(false);
            }
        }
    }
}

/// Deleting a preset that was just saved under a new name gives back the store as it was.
pub proof fn law_delete_undoes_save_of_new_name(s: Seq<PresetView>, p: PresetView)
    requires
        !has_name(s, p.name),
    ensures
        deleted_spec(saved_spec(s, p), p.name) == s,
{
    lemma_name_index(s, p.name);
    let t = saved_spec(s, p);
    assert forall|j: int| 0 <= j < s.len() implies #[trigger] t[j].name != p.name by {
        assert(t[j] == s[j]);
    }
    lemma_first_is_name_index(t, p.name, s.len() as int);
    assert(deleted_spec(t, p.name) =~= s);
}

/// A store of custom presets: the ordered list of presets that the preset file holds.
pub struct CustomPresetStore {
    presets: Vec<CustomPreset>,
}

impl View for CustomPresetStore {
    type V = Seq<PresetView>;

    closed spec fn view(&self) -> Seq<PresetView> {
        self.presets@.map_values(|p: CustomPreset| p@)
    }
}

impl CustomPresetStore {
    /// An empty store.
    pub fn new() -> (r: CustomPresetStore)
        ensures
            r@ == Seq::<PresetView>::empty(),
    {
        let r = CustomPresetStore { presets: Vec::new() };
        assert(r@ =~= Seq::<PresetView>::empty());
        r
    }

    /// A store holding `presets`, in that order, as read from a preset file.
    pub fn from_presets(presets: Vec<CustomPreset>) -> (r: CustomPresetStore)
        ensures
            r@ == presets@.map_values(|p: CustomPreset| p@),
    {
        CustomPresetStore { presets }
    }

    /// The number of presets.
    pub fn len(&self) -> (n: usize)
        ensures
            n == self@.len(),
    {
        self.presets.len()
    }

    /// Copies of all presets, in store order.
    pub fn load(&self) -> (r: Vec<CustomPreset>)
        ensures
            r@.map_values(|p: CustomPreset| p@) == self@,
    {
        let mut r: Vec<CustomPreset> = Vec::new();
        let n = self.presets.len();
        for i in 0..n
            invariant
                n == self.presets@.len(),
                r@.len() == i,
                forall|j: int| 0 <= j < i ==> #[trigger] r@[j]@ == self.presets@[j]@,
        {
            r.push(self.presets[i].duplicate());
        }
        assert(r@.map_values(|p: CustomPreset| p@) =~= self@);
        r
    }

    /// The index of the first preset named `name`, if any.
    pub fn position(&self, name: &str) -> (r: Option<usize>)
        ensures
            match r {
                Some(i) => i as int == name_index(self@, name@) && i < self@.len(),
                None => name_index(self@, name@) == -1,
            },
    {
        let target = name.to_owned();
        let n = self.presets.len();
        proof {
            lemma_name_index(self@, name@);
        }
        for i in 0..n
            invariant
                n == self.presets@.len(),
                n == self@.len(),
                target@ == name@,
                forall|j: int| 0 <= j < i ==> #[trigger] self@[j].name != name@,
        {
            if self.presets[i].name == target {
                proof {
                    lemma_first_is_name_index(self@, name@, i as int);
                }
                return Some(i);
            }
        }
        proof {
            if name_index(self@, name@) >= 0 {
                let k = name_index(self@, name@);
                assert(self@[k].name == name@);
            }
        }
        None
    }

    /// A copy of the first preset named `name`, if any.
    pub fn find(&self, name: &str) -> (r: Option<CustomPreset>)
        ensures
            match r {
                Some(p) => find_spec(self@, name@) == Some(p@),
                None => find_spec(self@, name@) is None,
            },
    {
        match self.position(name) {
            Some(i) => {
                assert(self@[i as int] == self.presets@[i as int]@);
                Some(self.presets[i].duplicate())
            },
            None => None,
        }
    }

    /// Saves `preset`: it replaces the first preset of the same name, or is
    /// appended where the store has none of that name.
    pub fn save(&mut self, preset: &CustomPreset)
        ensures
            final(self)@ == saved_spec(old(self)@, preset@),
    {
        let copy = preset.duplicate();
        match self.position(preset.name.as_str()) {
            Some(i) => {
                assert(self.presets@.len() == self@.len());
                self.presets.set(i, copy);
                assert(self@ =~= old(self)@.update(i as int, preset@));
            },
            None => {
                self.presets.push(copy);
                assert(self@ =~= old(self)@.push(preset@));
            },
        }
    }

    /// Deletes the first preset named `name`; fails with `PresetNotFound(name)`,
    /// leaving the store unchanged, where no preset has that name.
    pub fn delete(&mut self, name: &str) -> (r: Result<(), T4lError>)
        ensures
            r is Ok <==> has_name(old(self)@, name@),
            r is Ok ==> final(self)@ == deleted_spec(old(self)@, name@),
            r is Err ==> final(self)@ == old(self)@,
            r matches Err(e) ==> e matches T4lError::PresetNotFound(n) && n@ == name@,
    {
        proof {
            lemma_name_index(self@, name@);
        }
        match self.position(name) {
            Some(i) => {
                self.presets.remove(i);
                assert(self@ =~= old(self)@.remove(i as int));
                Ok(())
            },
            None => Err(T4lError::PresetNotFound(name.to_owned())),
        }
    }
}

impl PartialEq for CustomPreset {
    fn eq(&self, other: &Self) -> (r: bool) {
        self.name == other.name && self.pan == other.pan && self.tilt == other.tilt && self.zoom
            == other.zoom
    }
}

impl PartialEqSpecImpl for CustomPreset {
    open spec fn obeys_eq_spec() -> bool {
        true
    }

    open spec fn eq_spec(&self, other: &Self) -> bool {
        self@ == other@
    }
}

} // verus!

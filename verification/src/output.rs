use vstd::prelude::*;
use crate::keyed::{as_map, has_key, index_of, keys_distinct};
use crate::keyed::{lemma_empty, lemma_entry, lemma_insert, lemma_push, lemma_remove};
use crate::order::{ascending, lemma_precedes_transitive, name_precedes, rank, Rank};
use vstd::utf8::encode_utf8;

verus! {

/// The name under which an output is listed while it has none of its own.
pub open spec fn unknown_name() -> Seq<char> {
    "<unknown>"@
}

/// The name an output is listed under.
pub open spec fn display(name: Option<Seq<char>>) -> Seq<char> {
    match name {
        Some(n) => n,
        None => unknown_name(),
    }
}

/// An output of the display: the number the display gave it, and its name
/// once the display has told it.
#[derive(Clone, Debug)]
pub struct WlrOutput {
    id: u32,
    name: Option<String>,
}

/// What the display reports about one output while its name is resolved.
#[derive(Clone, Debug)]
pub enum OutputEvent {
    /// The output's name.
    Name(String),
    /// Everything about the output has been told.
    Done,
    /// Anything else; it changes nothing.
    Other,
}

impl WlrOutput {
    pub closed spec fn spec_id(&self) -> u32 {
        self.id
    }

    pub closed spec fn spec_name(&self) -> Option<Seq<char>> {
        match self.name {
            Some(s) => Some(s@),
            None => None,
        }
    }

    pub open spec fn display_name(&self) -> Seq<char> {
        display(self.spec_name())
    }

    /// An output that was just announced: nothing but its number is known.
    pub fn new(id: u32) -> (output: WlrOutput)
        ensures
            output.spec_id() == id,
            output.spec_name() is None,
    {
        WlrOutput { id, name: None }
    }

    #[verifier::when_used_as_spec(spec_id)]
    pub fn id(&self) -> (id: u32)
        ensures
            id == self.spec_id(),
    {
        self.id
    }

    pub fn name(&self) -> (name: &str)
        ensures
            name@ == self.display_name(),
    {
        match &self.name {
            Some(s) => s.as_str(),
            None => "<unknown>",
        }
    }

    /// Takes a report about this output and tells whether it was the last
    /// one, after which the output can be listed.
    pub fn handle_event(&mut self, event: OutputEvent) -> (done: bool)
        ensures
            final(self).spec_id() == old(self).spec_id(),
            done == (event is Done),
            event matches OutputEvent::Name(n) ==> final(self).spec_name() == Some(n@),
            !(event is Name) ==> final(self).spec_name() == old(self).spec_name(),
    {
        match event {
            OutputEvent::Name(name) => {
                self.name = Some(name);
                false
            },
            OutputEvent::Done => true,
            OutputEvent::Other => false,
        }
    }
}

/// The table of outputs as contracts speak of it.
pub struct RegistryView {
    /// Announced outputs whose name is still being resolved, with the name
    /// told so far. They cannot be selected yet.
    pub pending: Map<u32, Option<Seq<char>>>,
    /// The outputs that can be selected, by name.
    pub resolved: Map<Seq<char>, u32>,
}

/// The entries of `names` that do not belong to the output `id`.
pub open spec fn without(names: Map<Seq<char>, u32>, id: u32) -> Map<Seq<char>, u32> {
    Map::new(|n: Seq<char>| names.contains_key(n) && names[n] != id, |n: Seq<char>| names[n])
}

/// Whether some name in `names` belongs to the output `id`.
pub open spec fn listed_in(names: Map<Seq<char>, u32>, id: u32) -> bool {
    exists|n: Seq<char>| names.contains_key(n) && #[trigger] names[n] == id
}

impl RegistryView {
    pub open spec fn empty() -> RegistryView {
        RegistryView { pending: Map::empty(), resolved: Map::empty() }
    }

    /// Whether an output is listed under its name.
    pub open spec fn lists(self, id: u32) -> bool {
        listed_in(self.resolved, id)
    }

    pub open spec fn knows(self, id: u32) -> bool {
        self.pending.contains_key(id) || self.lists(id)
    }

    /// No output is listed under two names, and none is both listed and
    /// still being resolved.
    pub open spec fn wf(self) -> bool {
        &&& forall|a: Seq<char>, b: Seq<char>|
            self.resolved.contains_key(a) && self.resolved.contains_key(b) && self.resolved[a]
                == self.resolved[b] ==> a == b
        &&& forall|n: Seq<char>| self.resolved.contains_key(n) ==> !self.pending.contains_key(#[trigger] self.resolved[n])
    }

    /// An output appears. Its name is asked for; until the answer is complete
    /// the output is not listed. An output that is known already stays as it
    /// is.
    pub open spec fn added(self, id: u32) -> RegistryView {
        if self.knows(id) {
            self
        } else {
            RegistryView { pending: self.pending.insert(id, None), ..self }
        }
    }

    pub open spec fn named(self, id: u32, name: Seq<char>) -> RegistryView {
        if self.pending.contains_key(id) {
            RegistryView { pending: self.pending.insert(id, Some(name)), ..self }
        } else {
            self
        }
    }

    /// The answer is complete: the output is listed under the name told, or
    /// under the placeholder if none was told, in place of whatever was
    /// listed under that name.
    pub open spec fn done(self, id: u32) -> RegistryView {
        if self.pending.contains_key(id) {
            RegistryView {
                pending: self.pending.remove(id),
                resolved: self.resolved.insert(display(self.pending[id]), id),
            }
        } else {
            self
        }
    }

    /// An output left: it is neither listed nor resolved any more.
    pub open spec fn removed(self, id: u32) -> RegistryView {
        RegistryView { pending: self.pending.remove(id), resolved: without(self.resolved, id) }
    }

    pub open spec fn event(self, id: u32, event: OutputEvent) -> RegistryView {
        match event {
            OutputEvent::Name(name) => self.named(id, name@),
            OutputEvent::Done => self.done(id),
            OutputEvent::Other => self,
        }
    }

    pub open spec fn lookup(self, name: Seq<char>) -> Option<u32> {
        if self.resolved.contains_key(name) {
            Some(self.resolved[name])
        } else {
            None
        }
    }
}

/// A list of names and numbers as contracts speak of it.
pub open spec fn listing(list: Seq<(String, u32)>) -> Seq<(Seq<char>, u32)> {
    list.map_values(|e: (String, u32)| (e.0@, e.1))
}

/// A listed output: the name it is listed under and its number.
#[derive(Debug)]
struct Listed {
    key: String,
    id: u32,
}

/// The outputs that the display has announced. An output is listed, and can
/// be selected by name, once its name has been resolved; it disappears when
/// the display removes it.
#[derive(Debug)]
pub struct OutputRegistry {
    pending: Vec<WlrOutput>,
    resolved: Vec<Listed>,
}

spec fn pending_pairs(s: Seq<WlrOutput>) -> Seq<(u32, Option<Seq<char>>)> {
    s.map_values(|o: WlrOutput| (o.id, o.spec_name()))
}

spec fn by_name(s: Seq<Listed>) -> Seq<(Seq<char>, u32)> {
    s.map_values(|e: Listed| (e.key@, e.id))
}

spec fn by_id(s: Seq<Listed>) -> Seq<(u32, Seq<char>)> {
    s.map_values(|e: Listed| (e.id, e.key@))
}

proof fn lemma_lists(s: Seq<Listed>, id: u32)
    requires
        keys_distinct(by_name(s)),
    ensures
        has_key(by_id(s), id) <==> listed_in(as_map(by_name(s)), id),
{
    let names = as_map(by_name(s));
    if has_key(by_id(s), id) {
        let i = index_of(by_id(s), id);
        lemma_entry(by_name(s), i);
        assert(names.contains_key(s[i].key@) && names[s[i].key@] == id);
    }
    if listed_in(names, id) {
        let n = choose|n: Seq<char>| names.contains_key(n) && #[trigger] names[n] == id;
        let i = index_of(by_name(s), n);
        lemma_entry(by_name(s), i);
        assert(by_id(s)[i].0 == id);
    }
}

impl View for OutputRegistry {
    type V = RegistryView;

    closed spec fn view(&self) -> RegistryView {
        RegistryView {
            pending: as_map(pending_pairs(self.pending@)),
            resolved: as_map(by_name(self.resolved@)),
        }
    }
}

impl OutputRegistry {
    pub closed spec fn wf(&self) -> bool {
        &&& keys_distinct(pending_pairs(self.pending@))
        &&& keys_distinct(by_name(self.resolved@))
        &&& keys_distinct(by_id(self.resolved@))
        &&& forall|i: int, j: int|
            0 <= i < self.pending@.len() && 0 <= j < self.resolved@.len() ==> (
            #[trigger] self.pending@[i]).id != (#[trigger] self.resolved@[j]).id
    }

    /// A well-formed table has a well-formed view.
    pub proof fn lemma_view_wf(&self)
        requires
            self.wf(),
        ensures
            self@.wf(),
    {
        let names = by_name(self.resolved@);
        let view = self@;
        assert forall|a: Seq<char>, b: Seq<char>|
            view.resolved.contains_key(a) && view.resolved.contains_key(b) && view.resolved[a]
                == view.resolved[b] implies a == b by {
            let i = index_of(names, a);
            let j = index_of(names, b);
            lemma_entry(names, i);
            lemma_entry(names, j);
            if i != j {
                if i < j {
                    assert(by_id(self.resolved@)[i].0 != by_id(self.resolved@)[j].0);
                } else {
                    assert(by_id(self.resolved@)[j].0 != by_id(self.resolved@)[i].0);
                }
            }
        }
        assert forall|n: Seq<char>| view.resolved.contains_key(n) implies !view.pending.contains_key(
            #[trigger] view.resolved[n],
        ) by {
            let j = index_of(names, n);
            lemma_entry(names, j);
            if has_key(pending_pairs(self.pending@), view.resolved[n]) {
                let i = index_of(pending_pairs(self.pending@), view.resolved[n]);
                assert(self.pending@[i].id != self.resolved@[j].id);
            }
        }
    }

    pub fn new() -> (registry: OutputRegistry)
        ensures
            registry.wf(),
            registry@ == RegistryView::empty(),
    {
        let registry = OutputRegistry { pending: Vec::new(), resolved: Vec::new() };
        proof {
            lemma_empty(pending_pairs(registry.pending@));
            lemma_empty(by_name(registry.resolved@));
            lemma_empty(by_id(registry.resolved@));
            assert(registry@.pending =~= Map::<u32, Option<Seq<char>>>::empty());
            assert(registry@.resolved =~= Map::<Seq<char>, u32>::empty());
        }
        registry
    }

    fn find_pending(&self, id: u32) -> (found: Option<usize>)
        ensures
            found matches Some(i) ==> i < self.pending@.len() && self.pending@[i as int].id == id,
            found is None ==> !has_key(pending_pairs(self.pending@), id),
            found is Some <==> has_key(pending_pairs(self.pending@), id),
    {
        let mut i: usize = 0;
        while i < self.pending.len()
            invariant
                i <= self.pending@.len(),
                forall|j: int| 0 <= j < i ==> self.pending@[j].id != id,
            decreases self.pending@.len() - i,
        {
            if self.pending[i].id == id {
                assert(pending_pairs(self.pending@)[i as int].0 == id);
                return Some(i);
            }
            i += 1;
        }
        assert forall|j: int| 0 <= j < pending_pairs(self.pending@).len() implies (
        #[trigger] pending_pairs(self.pending@)[j]).0 != id by {
            assert(self.pending@[j].id != id);
        }
        None
    }

    fn find_listed(&self, id: u32) -> (found: Option<usize>)
        ensures
            found matches Some(i) ==> i < self.resolved@.len() && self.resolved@[i as int].id == id,
            found is Some <==> has_key(by_id(self.resolved@), id),
    {
        let mut i: usize = 0;
        while i < self.resolved.len()
            invariant
                i <= self.resolved@.len(),
                forall|j: int| 0 <= j < i ==> self.resolved@[j].id != id,
            decreases self.resolved@.len() - i,
        {
            if self.resolved[i].id == id {
                assert(by_id(self.resolved@)[i as int].0 == id);
                return Some(i);
            }
            i += 1;
        }
        assert forall|j: int| 0 <= j < by_id(self.resolved@).len() implies (#[trigger] by_id(
            self.resolved@,
        )[j]).0 != id by {
            assert(self.resolved@[j].id != id);
        }
        None
    }

    fn find_name(&self, name: &String) -> (found: Option<usize>)
        ensures
            found matches Some(i) ==> i < self.resolved@.len() && self.resolved@[i as int].key@
                == name@,
            found is Some <==> has_key(by_name(self.resolved@), name@),
    {
        let mut i: usize = 0;
        while i < self.resolved.len()
            invariant
                i <= self.resolved@.len(),
                forall|j: int| 0 <= j < i ==> self.resolved@[j].key@ != name@,
            decreases self.resolved@.len() - i,
        {
            if self.resolved[i].key == *name {
                assert(by_name(self.resolved@)[i as int].0 == name@);
                return Some(i);
            }
            i += 1;
        }
        assert forall|j: int| 0 <= j < by_name(self.resolved@).len() implies (#[trigger] by_name(
            self.resolved@,
        )[j]).0 != name@ by {
            assert(self.resolved@[j].key@ != name@);
        }
        None
    }

    /// Whether the output is listed or being resolved.
    pub fn knows(&self, id: u32) -> (known: bool)
        requires
            self.wf(),
        ensures
            known == self@.knows(id),
    {
        proof {
            lemma_lists(self.resolved@, id);
        }
        self.find_pending(id).is_some() || self.find_listed(id).is_some()
    }

    /// The display announced an output.
    pub fn on_output_added(&mut self, id: u32)
        requires
            old(self).wf(),
        ensures
            final(self).wf(),
            final(self)@ == old(self)@.added(id),
    {
        proof {
            lemma_lists(self.resolved@, id);
        }
        if self.find_pending(id).is_some() || self.find_listed(id).is_some() {
            return ;
        }
        let ghost before = self.pending@;
        self.pending.push(WlrOutput::new(id));
        proof {
            assert(pending_pairs(self.pending@) =~= pending_pairs(before).push((id, None)));
            lemma_push(pending_pairs(before), (id, None));
            assert forall|i: int, j: int|
                0 <= i < self.pending@.len() && 0 <= j < self.resolved@.len() implies (
            #[trigger] self.pending@[i]).id != (#[trigger] self.resolved@[j]).id by {
                if i == before.len() {
                    assert(by_id(self.resolved@)[j].0 != id);
                } else {
                    assert(self.pending@[i] == before[i]);
                }
            }
        }
    }

    /// The display told the name of an output that is being resolved.
    pub fn on_name(&mut self, id: u32, name: String)
        requires
            old(self).wf(),
        ensures
            final(self).wf(),
            final(self)@ == old(self)@.named(id, name@),
    {
        match self.find_pending(id) {
            Some(i) => {
                let ghost before = self.pending@;
                let mut output = self.pending.remove(i);
                let ghost removed = self.pending@;
                output.name = Some(name);
                self.pending.push(output);
                proof {
                    let pairs = pending_pairs(before);
                    assert(pending_pairs(removed) =~= pairs.remove(i as int));
                    lemma_remove(pairs, i as int);
                    assert(pending_pairs(self.pending@) =~= pairs.remove(i as int).push(
                        (id, Some(name@)),
                    ));
                    lemma_push(pairs.remove(i as int), (id, Some(name@)));
                    lemma_entry(pairs, i as int);
                    assert(self@.pending =~= old(self)@.pending.insert(id, Some(name@)));
                    assert forall|a: int, b: int|
                        0 <= a < self.pending@.len() && 0 <= b < self.resolved@.len() implies (
                    #[trigger] self.pending@[a]).id != (#[trigger] self.resolved@[b]).id by {
                        if a == removed.len() {
                            assert(before[i as int].id != self.resolved@[b].id);
                        } else {
                            let a2 = if a < i { a } else { a + 1 };
                            assert(self.pending@[a] == before[a2]);
                        }
                    }
                }
            },
            None => {},
        }
    }

    /// The display has told everything about an output: from now on it is
    /// listed. Tells whether the list changed.
    pub fn on_done(&mut self, id: u32) -> (changed: bool)
        requires
            old(self).wf(),
        ensures
            final(self).wf(),
            final(self)@ == old(self)@.done(id),
            changed == old(self)@.pending.contains_key(id),
    {
        match self.find_pending(id) {
            Some(i) => {
                let ghost pending0 = self.pending@;
                let ghost resolved0 = self.resolved@;
                proof {
                    lemma_entry(pending_pairs(pending0), i as int);
                    assert(!has_key(by_id(resolved0), id)) by {
                        if has_key(by_id(resolved0), id) {
                            let j = index_of(by_id(resolved0), id);
                            assert(pending0[i as int].id != resolved0[j].id);
                        }
                    }
                }
                let output = self.pending.remove(i);
                proof {
                    assert(pending_pairs(self.pending@) =~= pending_pairs(pending0).remove(i as int));
                    lemma_remove(pending_pairs(pending0), i as int);
                }
                let key = match output.name {
                    Some(name) => name,
                    None => "<unknown>".to_owned(),
                };
                assert(key@ == display(old(self)@.pending[id]));
                match self.find_name(&key) {
                    Some(j) => {
                        self.resolved.remove(j);
                        proof {
                            assert(by_name(self.resolved@) =~= by_name(resolved0).remove(j as int));
                            assert(by_id(self.resolved@) =~= by_id(resolved0).remove(j as int));
                            lemma_remove(by_name(resolved0), j as int);
                            lemma_remove(by_id(resolved0), j as int);
                            assert(!has_key(by_id(self.resolved@), id)) by {
                                if has_key(by_id(self.resolved@), id) {
                                    let a = index_of(by_id(self.resolved@), id);
                                    let a2 = if a < j { a } else { a + 1 };
                                    assert(by_id(resolved0)[a2].0 == id);
                                }
                            }
                        }
                    },
                    None => {
                        proof {
                            assert(as_map(by_name(resolved0)).remove(key@) =~= as_map(
                                by_name(resolved0),
                            ));
                        }
                    },
                }
                let ghost resolved1 = self.resolved@;
                assert(as_map(by_name(resolved1)) =~= as_map(by_name(resolved0)).remove(key@));
                assert(!has_key(by_name(resolved1), key@));
                self.resolved.push(Listed { key, id });
                proof {
                    assert(by_name(self.resolved@) =~= by_name(resolved1).push((key@, id)));
                    assert(by_id(self.resolved@) =~= by_id(resolved1).push((id, key@)));
                    lemma_push(by_name(resolved1), (key@, id));
                    lemma_push(by_id(resolved1), (id, key@));
                    assert(self@.resolved =~= old(self)@.resolved.insert(key@, id));
                    assert forall|a: int, b: int|
                        0 <= a < self.pending@.len() && 0 <= b < self.resolved@.len() implies (
                    #[trigger] self.pending@[a]).id != (#[trigger] self.resolved@[b]).id by {
                        let a2 = if a < i { a } else { a + 1 };
                        assert(self.pending@[a] == pending0[a2]);
                        if b == resolved1.len() {
                            assert(pending_pairs(self.pending@)[a].0 != id);
                        } else {
                            assert(exists|b0: int|
                                0 <= b0 < resolved0.len() && resolved0[b0] == resolved1[b]) by {
                                if resolved1.len() == resolved0.len() {
                                    assert(resolved0[b] == resolved1[b]);
                                } else {
                                    let j = choose|j: int|
                                        0 <= j < resolved0.len() && resolved1 == resolved0.remove(j);
                                    let b2 = if b < j { b } else { b + 1 };
                                    assert(resolved0[b2] == resolved1[b]);
                                }
                            }
                            let b0 = choose|b0: int|
                                0 <= b0 < resolved0.len() && resolved0[b0] == resolved1[b];
                            assert(pending0[a2].id != resolved0[b0].id);
                        }
                    }
                }
                true
            },
            None => false,
        }
    }

    /// Takes a report about the output `id` while its name is resolved, and
    /// tells whether the list changed.
    pub fn on_output_event(&mut self, id: u32, event: OutputEvent) -> (changed: bool)
        requires
            old(self).wf(),
        ensures
            final(self).wf(),
            final(self)@ == old(self)@.event(id, event),
            changed == (event is Done && old(self)@.pending.contains_key(id)),
    {
        match event {
            OutputEvent::Name(name) => {
                self.on_name(id, name);
                false
            },
            OutputEvent::Done => self.on_done(id),
            OutputEvent::Other => false,
        }
    }

    /// The display removed an output. Tells whether the list changed, that
    /// is, whether the output was listed.
    pub fn on_output_removed(&mut self, id: u32) -> (changed: bool)
        requires
            old(self).wf(),
        ensures
            final(self).wf(),
            final(self)@ == old(self)@.removed(id),
            changed == old(self)@.lists(id),
    {
        let ghost pending0 = self.pending@;
        let ghost resolved0 = self.resolved@;
        proof {
            lemma_lists(resolved0, id);
        }
        match self.find_pending(id) {
            Some(i) => {
                self.pending.remove(i);
                proof {
                    assert(pending_pairs(self.pending@) =~= pending_pairs(pending0).remove(i as int));
                    lemma_remove(pending_pairs(pending0), i as int);
                    assert forall|a: int, b: int|
                        0 <= a < self.pending@.len() && 0 <= b < self.resolved@.len() implies (
                    #[trigger] self.pending@[a]).id != (#[trigger] self.resolved@[b]).id by {
                        let a2 = if a < i { a } else { a + 1 };
                        assert(self.pending@[a] == pending0[a2]);
                    }
                }
            },
            None => {
                proof {
                    assert(as_map(pending_pairs(pending0)).remove(id) =~= as_map(
                        pending_pairs(pending0),
                    ));
                }
            },
        }
        let ghost pending1 = self.pending@;
        match self.find_listed(id) {
            Some(j) => {
                self.resolved.remove(j);
                proof {
                    let names = by_name(resolved0);
                    assert(by_name(self.resolved@) =~= names.remove(j as int));
                    assert(by_id(self.resolved@) =~= by_id(resolved0).remove(j as int));
                    lemma_remove(names, j as int);
                    lemma_remove(by_id(resolved0), j as int);
                    lemma_entry(names, j as int);
                    assert forall|n: Seq<char>|
                        as_map(names).contains_key(n) && n != names[j as int].0 implies as_map(
                        names,
                    )[n] != id by {
                        let k = index_of(names, n);
                        lemma_entry(names, k);
                        if k < j {
                            assert(by_id(resolved0)[k].0 != by_id(resolved0)[j as int].0);
                        } else {
                            assert(by_id(resolved0)[j as int].0 != by_id(resolved0)[k].0);
                        }
                    }
                    assert(self@.resolved =~= without(old(self)@.resolved, id));
                    assert forall|a: int, b: int|
                        0 <= a < self.pending@.len() && 0 <= b < self.resolved@.len() implies (
                    #[trigger] self.pending@[a]).id != (#[trigger] self.resolved@[b]).id by {
                        let b2 = if b < j { b } else { b + 1 };
                        assert(self.resolved@[b] == resolved0[b2]);
                        if pending1.len() == pending0.len() {
                            assert(pending1[a] == pending0[a]);
                        } else {
                            let i = choose|i: int|
                                0 <= i < pending0.len() && pending1 == pending0.remove(i);
                            let a2 = if a < i { a } else { a + 1 };
                            assert(pending1[a] == pending0[a2]);
                        }
                    }
                }
                true
            },
            None => {
                proof {
                    let names = by_name(resolved0);
                    assert forall|n: Seq<char>| as_map(names).contains_key(n) implies as_map(
                        names,
                    )[n] != id by {
                        let k = index_of(names, n);
                        lemma_entry(names, k);
                        assert(by_id(resolved0)[k].0 != id);
                    }
                    assert(self@.resolved =~= without(old(self)@.resolved, id));
                }
                false
            },
        }
    }

    /// A copy of the list: every listed output once, with its name and its
    /// number, in the order of the names.
    pub fn snapshot(&self) -> (list: Vec<(String, u32)>)
        requires
            self.wf(),
        ensures
            ascending(listing(list@)),
            keys_distinct(listing(list@)),
            as_map(listing(list@)) == self@.resolved,
    {
        let ghost names = by_name(self.resolved@);
        let mut list: Vec<(String, u32)> = Vec::new();
        let mut i: usize = 0;
        proof {
            lemma_empty(listing(list@));
            lemma_empty(names.take(0));
        }
        while i < self.resolved.len()
            invariant
                i <= self.resolved@.len(),
                names == by_name(self.resolved@),
                keys_distinct(names),
                ascending(listing(list@)),
                keys_distinct(listing(list@)),
                as_map(listing(list@)) == as_map(names.take(i as int)),
            decreases self.resolved@.len() - i,
        {
            let entry = &self.resolved[i];
            let ghost sorted = listing(list@);
            let ghost key = entry.key@;
            proof {
                assert(names[i as int].0 == key);
                assert(keys_distinct(names.take(i as int))) by {
                    assert forall|a: int, b: int| 0 <= a < b < i implies names.take(i as int)[a].0
                        != names.take(i as int)[b].0 by {
                        assert(names[a].0 != names[b].0);
                    }
                }
                assert(!has_key(names.take(i as int), key)) by {
                    if has_key(names.take(i as int), key) {
                        let a = index_of(names.take(i as int), key);
                        assert(names[a].0 != names[i as int].0);
                    }
                }
                assert(!has_key(sorted, key)) by {
                    if has_key(sorted, key) {
                        assert(as_map(sorted).contains_key(key));
                        assert(as_map(names.take(i as int)).contains_key(key));
                    }
                }
            }
            let mut p: usize = 0;
            let mut searching = true;
            while searching && p < list.len()
                invariant
                    p <= list@.len(),
                    sorted == listing(list@),
                    key == entry.key@,
                    !has_key(sorted, key),
                    forall|j: int| 0 <= j < p ==> name_precedes((#[trigger] sorted[j]).0, key),
                    !searching ==> p < list@.len() && name_precedes(key, sorted[p as int].0),
                decreases list@.len() - p + (if searching { 1int } else { 0int }),
            {
                match rank(list[p].0.as_str(), entry.key.as_str()) {
                    Rank::Before => {
                        assert(sorted[p as int].0 == list@[p as int].0@);
                        p += 1;
                    },
                    Rank::Same => {
                        proof {
                            assert(sorted[p as int].0 == key);
                            assert(has_key(sorted, key));
                        }
                        searching = false;
                    },
                    Rank::After => {
                        assert(sorted[p as int].0 == list@[p as int].0@);
                        searching = false;
                    },
                }
            }
            let name = entry.key.clone();
            list.insert(p, (name, entry.id));
            proof {
                let e = (key, entry.id);
                let grown = listing(list@);
                assert(grown =~= sorted.insert(p as int, e));
                lemma_insert(sorted, p as int, e);
                assert forall|a: int, b: int| 0 <= a < b < grown.len() implies name_precedes(
                    grown[a].0,
                    grown[b].0,
                ) by {
                    let a2 = if a < p { a } else { a - 1 };
                    let b2 = if b < p { b } else { b - 1 };
                    if a == p {
                        assert(grown[b] == sorted[b2]);
                        assert(name_precedes(key, sorted[p as int].0));
                        if b2 > p {
                            assert(name_precedes(sorted[p as int].0, sorted[b2].0));
                            lemma_precedes_transitive(
                                encode_utf8(key),
                                encode_utf8(sorted[p as int].0),
                                encode_utf8(sorted[b2].0),
                            );
                        }
                    } else if b == p {
                        assert(grown[a] == sorted[a2]);
                    } else {
                        assert(grown[a] == sorted[a2] && grown[b] == sorted[b2]);
                        assert(name_precedes(sorted[a2].0, sorted[b2].0));
                    }
                }
                lemma_push(names.take(i as int), names[i as int]);
                assert(names.take(i as int + 1) =~= names.take(i as int).push(names[i as int]));
            }
            i += 1;
        }
        assert(names.take(i as int) =~= names);
        list
    }

    /// The number of the output listed under `name`, if there is one.
    pub fn lookup(&self, name: &str) -> (id: Option<u32>)
        requires
            self.wf(),
        ensures
            id == self@.lookup(name@),
    {
        let key = name.to_owned();
        match self.find_name(&key) {
            Some(i) => {
                proof {
                    lemma_entry(by_name(self.resolved@), i as int);
                }
                Some(self.resolved[i].id)
            },
            None => None,
        }
    }

    /// The name under which the output `id` is listed, if it is.
    pub fn name_of(&self, id: u32) -> (name: Option<&str>)
        requires
            self.wf(),
        ensures
            name is Some <==> self@.lists(id),
            name matches Some(n) ==> self@.lookup(n@) == Some(id),
    {
        proof {
            lemma_lists(self.resolved@, id);
        }
        match self.find_listed(id) {
            Some(i) => {
                proof {
                    lemma_entry(by_name(self.resolved@), i as int);
                }
                Some(self.resolved[i].key.as_str())
            },
            None => None,
        }
    }
}

} // verus!

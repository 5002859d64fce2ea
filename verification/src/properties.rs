use vstd::prelude::*;

verus! {

/// A list of choices as contracts speak of it.
pub struct ListView {
    /// The key under which the host stores the choice.
    pub name: Seq<char>,
    /// What the user sees beside the list.
    pub description: Seq<char>,
    /// The choices in order: what the user sees, and the value stored.
    pub items: Seq<(Seq<char>, Seq<char>)>,
}

/// Choices as contracts speak of them.
pub open spec fn choices(items: Seq<(String, String)>) -> Seq<(Seq<char>, Seq<char>)> {
    items.map_values(|e: (String, String)| (e.0@, e.1@))
}

/// Something the user can pick items from.
pub trait PropertyList<T: ?Sized> {
    /// The number of items.
    spec fn count(&self) -> nat;

    /// Appends an item and returns its position.
    fn add_item(&mut self, name: &str, item: &T) -> (index: usize)
        ensures
            index == old(self).count(),
            final(self).count() == old(self).count() + 1,
    ;

    /// Removes all items.
    fn clear(&mut self)
        ensures
            final(self).count() == 0,
    ;
}

/// A list of strings for the user to choose one from.
#[derive(Debug)]
pub struct StringPropertyList {
    name: String,
    description: String,
    items: Vec<(String, String)>,
}

impl View for StringPropertyList {
    type V = ListView;

    closed spec fn view(&self) -> ListView {
        ListView { name: self.name@, description: self.description@, items: choices(self.items@) }
    }
}

impl StringPropertyList {
    pub fn name(&self) -> (name: &str)
        ensures
            name@ == self@.name,
    {
        self.name.as_str()
    }

    pub fn description(&self) -> (description: &str)
        ensures
            description@ == self@.description,
    {
        self.description.as_str()
    }

    pub fn items(&self) -> (items: &Vec<(String, String)>)
        ensures
            choices(items@) == self@.items,
    {
        &self.items
    }
}

impl PropertyList<str> for StringPropertyList {
    open spec fn count(&self) -> nat {
        self@.items.len()
    }

    fn add_item(&mut self, name: &str, item: &str) -> (index: usize)
        ensures
            final(self)@ == (ListView {
                items: old(self)@.items.push((name@, item@)),
                ..old(self)@
            }),
    {
        let index = self.items.len();
        self.items.push((name.to_owned(), item.to_owned()));
        assert(choices(self.items@) =~= choices(old(self).items@).push((name@, item@)));
        index
    }

    fn clear(&mut self)
        ensures
            final(self)@ == (ListView { items: Seq::empty(), ..old(self)@ }),
    {
        self.items.clear();
        assert(choices(self.items@) =~= Seq::empty());
    }
}

/// The settings that a source lets the user change.
#[derive(Debug)]
pub struct Properties {
    lists: Vec<StringPropertyList>,
}

impl View for Properties {
    type V = Seq<ListView>;

    closed spec fn view(&self) -> Seq<ListView> {
        self.lists@.map_values(|l: StringPropertyList| l@)
    }
}

impl Properties {
    pub fn new() -> (properties: Properties)
        ensures
            properties@ == Seq::<ListView>::empty(),
    {
        let properties = Properties { lists: Vec::new() };
        assert(properties@ =~= Seq::<ListView>::empty());
        properties
    }

    /// Appends an empty list of strings and hands it out to be filled.
    pub fn add_string_list(&mut self, name: &str, description: &str) -> (list: &mut StringPropertyList)
        ensures
            list@ == (ListView { name: name@, description: description@, items: Seq::empty() }),
            final(self)@ == old(self)@.push(final(list)@),
    {
        let list = StringPropertyList {
            name: name.to_owned(),
            description: description.to_owned(),
            items: Vec::new(),
        };
        assert(list@.items =~= Seq::empty());
        self.lists.push(list);
        let last = self.lists.len() - 1;
        let ghost before = self.lists@;
        let handle = &mut self.lists[last];
        proof {
            assert(before.update(last as int, *final(handle)).map_values(|l: StringPropertyList| l@)
                =~= old(self)@.push(final(handle)@));
        }
        handle
    }

    pub fn lists(&self) -> (lists: &Vec<StringPropertyList>)
        ensures
            lists@.map_values(|l: StringPropertyList| l@) == self@,
    {
        &self.lists
    }
}

} // verus!

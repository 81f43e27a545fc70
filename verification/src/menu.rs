//! The tray's context menu as the application sees it: an ordered list of
//! items, each with an identifier and the text it shows.

use crate::text::same_text;
use crate::translator::{Translator, TranslatorView};
use vstd::prelude::*;

verus! {

/// One entry of the tray's context menu.
#[derive(Debug, PartialEq, Eq)]
pub struct MenuItem {
    /// The identifier that a click on the item reports.
    pub id: String,
    /// The text the item shows.
    pub text: String,
    /// Whether the item can be clicked.
    pub enabled: bool,
    /// The keyboard shortcut of the item, if it has one.
    pub accelerator: Option<String>,
}

/// The mathematical value of a [`MenuItem`].
pub struct MenuItemView {
    pub id: Seq<char>,
    pub text: Seq<char>,
    pub enabled: bool,
    pub accelerator: Option<Seq<char>>,
}

impl View for MenuItem {
    type V = MenuItemView;

    open spec fn view(&self) -> MenuItemView {
        MenuItemView {
            id: self.id@,
            text: self.text@,
            enabled: self.enabled,
            accelerator: match self.accelerator {
                Some(keys) => Some(keys@),
                None => None,
            },
        }
    }
}

impl MenuItemView {
    /// This item with another text. Nothing else changes.
    pub open spec fn with_text(self, text: Seq<char>) -> MenuItemView {
        MenuItemView { text, ..self }
    }

    /// This item with `text` if it carries `id`, and unchanged otherwise.
    pub open spec fn relabelled_if(self, id: Seq<char>, text: Seq<char>) -> MenuItemView {
        if self.id == id {
            self.with_text(text)
        } else {
            self
        }
    }

    /// This item with the text that `translator` has for its identifier in
    /// the active locale. Where it has none, the item keeps its text.
    pub open spec fn translated(self, translator: TranslatorView) -> MenuItemView {
        self.with_text(translator.translate_with_default(self.id, self.text))
    }
}

impl MenuItem {
    /// A menu item with the given identifier, text, state and shortcut.
    pub fn with_id(id: &str, text: String, enabled: bool, accelerator: Option<String>) -> (item:
        MenuItem)
        ensures
            item@ == (MenuItemView {
                id: id@,
                text: text@,
                enabled,
                accelerator: match accelerator {
                    Some(keys) => Some(keys@),
                    None => None,
                },
            }),
    {
        MenuItem { id: id.to_owned(), text, enabled, accelerator }
    }
}

/// The tray's context menu.
#[derive(Debug, PartialEq, Eq)]
pub struct Menu {
    /// The identifier of the menu itself.
    pub id: String,
    /// The entries, in the order in which they are shown.
    pub items: Vec<MenuItem>,
}

/// The mathematical value of a [`Menu`].
pub struct MenuView {
    pub id: Seq<char>,
    pub items: Seq<MenuItemView>,
}

impl View for Menu {
    type V = MenuView;

    open spec fn view(&self) -> MenuView {
        MenuView { id: self.id@, items: self.items@.map_values(|item: MenuItem| item@) }
    }
}

impl MenuView {
    /// Whether some item carries `id`.
    pub open spec fn has_item(self, id: Seq<char>) -> bool {
        exists|index: int| 0 <= index < self.items.len() && (#[trigger] self.items[index]).id == id
    }

    /// This menu with `text` on every item that carries `id`. The items
    /// keep their number, their order and their identifiers.
    pub open spec fn with_text(self, id: Seq<char>, text: Seq<char>) -> MenuView {
        MenuView {
            id: self.id,
            items: self.items.map_values(|item: MenuItemView| item.relabelled_if(id, text)),
        }
    }

    /// This menu with every item's text taken from `translator`. The items
    /// keep their number, their order and their identifiers.
    pub open spec fn translated(self, translator: TranslatorView) -> MenuView {
        MenuView {
            id: self.id,
            items: self.items.map_values(|item: MenuItemView| item.translated(translator)),
        }
    }
}

impl Menu {
    /// A menu with the given identifier and entries.
    pub fn with_id_and_items(id: &str, items: Vec<MenuItem>) -> (menu: Menu)
        ensures
            menu@ == (MenuView { id: id@, items: items@.map_values(|item: MenuItem| item@) }),
    {
        Menu { id: id.to_owned(), items }
    }

    /// Writes `text` on every item that carries `id`, and says whether
    /// there was one.
    pub fn set_text(&mut self, id: &str, text: &str) -> (found: bool)
        ensures
            found == old(self)@.has_item(id@),
            final(self)@ == old(self)@.with_text(id@, text@),
    {
        let mut found = false;
        let mut index: usize = 0;
        while index < self.items.len()
            invariant
                index <= self.items.len(),
                self.id == old(self).id,
                self.items.len() == old(self).items.len(),
                found == exists|seen: int|
                    0 <= seen < index && (#[trigger] old(self).items@[seen]).id@ == id@,
                forall|done: int|
                    0 <= done < index ==> (#[trigger] self.items@[done])@ == old(
                        self,
                    ).items@[done]@.relabelled_if(id@, text@),
                forall|rest: int|
                    index <= rest < self.items.len() ==> #[trigger] self.items@[rest] == old(
                        self,
                    ).items@[rest],
            decreases self.items.len() - index,
        {
            if same_text(self.items[index].id.as_str(), id) {
                self.items[index].text = text.to_owned();
                found = true;
            }
            index += 1;
        }
        assert(self@.items =~= old(self)@.with_text(id@, text@).items);
        proof {
            if found {
                let seen = choose|seen: int|
                    0 <= seen < index && (#[trigger] old(self).items@[seen]).id@ == id@;
                assert(old(self)@.items[seen].id == id@);
            }
            if old(self)@.has_item(id@) {
                let at = choose|at: int|
                    0 <= at < old(self)@.items.len() && (#[trigger] old(self)@.items[at]).id
                        == id@;
                assert(old(self).items@[at].id@ == id@);
            }
        }
        found
    }

    /// Writes on every item the text that `translator` has for the item's
    /// identifier in the active locale. An item without such a text keeps
    /// the text it shows.
    pub fn translate(&mut self, translator: &Translator)
        ensures
            final(self)@ == old(self)@.translated(translator@),
    {
        let mut index: usize = 0;
        while index < self.items.len()
            invariant
                index <= self.items.len(),
                self.id == old(self).id,
                self.items.len() == old(self).items.len(),
                forall|done: int|
                    0 <= done < index ==> (#[trigger] self.items@[done])@ == old(
                        self,
                    ).items@[done]@.translated(translator@),
                forall|rest: int|
                    index <= rest < self.items.len() ==> #[trigger] self.items@[rest] == old(
                        self,
                    ).items@[rest],
            decreases self.items.len() - index,
        {
            let text = translator.translate_with_default(
                self.items[index].id.as_str(),
                self.items[index].text.as_str(),
            );
            self.items[index].text = text;
            index += 1;
        }
        assert(self@.items =~= old(self)@.translated(translator@).items);
    }
}

} // verus!

//! State of the setup dialog that collects the two upstream API keys.

use vstd::prelude::*;

use crate::text::{char_vec, trim_seq, trim_to_string};

verus! {

/// The input field that receives typed characters.
#[derive(Debug, Clone, Copy, PartialEq, Eq, Structural)]
pub enum FreeModeField {
    ZenKey,
    OpenRouterKey,
}

/// Visibility, the two key buffers, and the focused field of the dialog.
pub struct FreeModeDialogState {
    pub visible: bool,
    pub zen_key: String,
    pub openrouter_key: String,
    pub active_field: FreeModeField,
}

/// The characters of an optional existing key; none when it is absent.
pub open spec fn existing_chars(k: Option<String>) -> Seq<char> {
    match k {
        Some(s) => s@,
        None => Seq::empty(),
    }
}

/// The other field.
pub open spec fn other_field(f: FreeModeField) -> FreeModeField {
    match f {
        FreeModeField::ZenKey => FreeModeField::OpenRouterKey,
        FreeModeField::OpenRouterKey => FreeModeField::ZenKey,
    }
}

/// The text shown in place of an empty key.
pub open spec fn key_placeholder() -> Seq<char> {
    "paste your API key here..."@
}

/// The character that hides a key character.
pub open spec fn mask_char() -> char {
    '\u{2022}'
}

/// How a key is displayed: the placeholder when empty, the key itself when
/// it has at most four characters, and otherwise one mask character per
/// hidden character followed by the last four characters.
pub open spec fn masked(s: Seq<char>) -> Seq<char> {
    if s.len() == 0 {
        key_placeholder()
    } else if s.len() <= 4 {
        s
    } else {
        Seq::new((s.len() - 4) as nat, |i: int| mask_char()) + s.subrange(s.len() - 4, s.len() as int)
    }
}

/// The abstract state of the dialog: the key buffers as character sequences.
pub struct DialogView {
    pub visible: bool,
    pub zen_key: Seq<char>,
    pub openrouter_key: Seq<char>,
    pub active_field: FreeModeField,
}

/// `s` with its last character removed, or `s` itself when it is empty.
pub open spec fn without_last(s: Seq<char>) -> Seq<char> {
    if s.len() > 0 {
        s.drop_last()
    } else {
        s
    }
}

impl DialogView {
    /// A closed dialog: hidden, both keys empty, the Zen field focused.
    pub open spec fn reset() -> DialogView {
        DialogView {
            visible: false,
            zen_key: Seq::empty(),
            openrouter_key: Seq::empty(),
            active_field: FreeModeField::ZenKey,
        }
    }

    /// A dialog just shown with the given keys, focused on the first one
    /// still empty.
    pub open spec fn opened(zen: Seq<char>, openrouter: Seq<char>) -> DialogView {
        DialogView {
            visible: true,
            zen_key: zen,
            openrouter_key: openrouter,
            active_field: if zen.len() == 0 {
                FreeModeField::ZenKey
            } else {
                FreeModeField::OpenRouterKey
            },
        }
    }

    /// The same dialog focused on the other field.
    pub open spec fn switched(self) -> DialogView {
        DialogView { active_field: other_field(self.active_field), ..self }
    }

    /// The same dialog after `c` was typed into the focused field.
    pub open spec fn inserted(self, c: char) -> DialogView {
        match self.active_field {
            FreeModeField::ZenKey => DialogView { zen_key: self.zen_key.push(c), ..self },
            FreeModeField::OpenRouterKey => DialogView {
                openrouter_key: self.openrouter_key.push(c),
                ..self
            },
        }
    }

    /// The same dialog after the last character of the focused field was erased.
    pub open spec fn backspaced(self) -> DialogView {
        match self.active_field {
            FreeModeField::ZenKey => DialogView { zen_key: without_last(self.zen_key), ..self },
            FreeModeField::OpenRouterKey => DialogView {
                openrouter_key: without_last(self.openrouter_key),
                ..self
            },
        }
    }

    /// The characters of the focused field.
    pub open spec fn active_key(self) -> Seq<char> {
        match self.active_field {
            FreeModeField::ZenKey => self.zen_key,
            FreeModeField::OpenRouterKey => self.openrouter_key,
        }
    }

    /// Whether at least one key is non-blank.
    pub open spec fn can_submit(self) -> bool {
        trim_seq(self.zen_key).len() > 0 || trim_seq(self.openrouter_key).len() > 0
    }

    /// The trimmed pair of keys that submitting hands out.
    pub open spec fn values(self) -> (Seq<char>, Seq<char>) {
        (trim_seq(self.zen_key), trim_seq(self.openrouter_key))
    }
}

impl View for FreeModeDialogState {
    type V = DialogView;

    open spec fn view(&self) -> DialogView {
        DialogView {
            visible: self.visible,
            zen_key: self.zen_key@,
            openrouter_key: self.openrouter_key@,
            active_field: self.active_field,
        }
    }
}

impl FreeModeDialogState {
    pub fn new() -> (r: Self)
        ensures
            r@ == DialogView::reset(),
    {
        FreeModeDialogState {
            visible: false,
            zen_key: String::new(),
            openrouter_key: String::new(),
            active_field: FreeModeField::ZenKey,
        }
    }

    /// Shows the dialog pre-filled with the existing keys, focused on the
    /// Zen field when no Zen key is known and on the OpenRouter field otherwise.
    pub fn open(&mut self, zen_existing: Option<String>, or_existing: Option<String>)
        ensures
            final(self)@ == DialogView::opened(existing_chars(zen_existing), existing_chars(or_existing)),
    {
        self.visible = true;
        self.zen_key = match zen_existing {
            Some(k) => k,
            None => String::new(),
        };
        self.openrouter_key = match or_existing {
            Some(k) => k,
            None => String::new(),
        };
        self.active_field = if self.zen_key.as_str().is_empty() {
            FreeModeField::ZenKey
        } else {
            FreeModeField::OpenRouterKey
        };
    }

    /// Hides the dialog and forgets both keys.
    pub fn close(&mut self)
        ensures
            final(self)@ == DialogView::reset(),
    {
        self.visible = false;
        self.zen_key.clear();
        self.openrouter_key.clear();
        self.active_field = FreeModeField::ZenKey;
    }

    /// Moves the focus to the other field.
    pub fn switch_field(&mut self)
        ensures
            final(self)@ == old(self)@.switched(),
            final(self).active_field != old(self).active_field,
            final(self).visible == old(self).visible,
            final(self).zen_key@ == old(self).zen_key@,
            final(self).openrouter_key@ == old(self).openrouter_key@,
    {
        self.active_field = match self.active_field {
            FreeModeField::ZenKey => FreeModeField::OpenRouterKey,
            FreeModeField::OpenRouterKey => FreeModeField::ZenKey,
        };
    }

    /// Appends `c` to the focused field; the other field is unchanged.
    pub fn insert_char(&mut self, c: char)
        ensures
            final(self)@ == old(self)@.inserted(c),
    {
        match self.active_field {
            FreeModeField::ZenKey => self.zen_key.push(c),
            FreeModeField::OpenRouterKey => self.openrouter_key.push(c),
        }
    }

    /// Removes the last character of the focused field, if it has one; the
    /// other field is unchanged.
    pub fn backspace(&mut self)
        ensures
            final(self)@ == old(self)@.backspaced(),
            final(self).active_field == old(self).active_field,
            final(self).visible == old(self).visible,
            old(self).active_field == FreeModeField::ZenKey ==> final(self).openrouter_key@ == old(
                self,
            ).openrouter_key@,
            old(self).active_field == FreeModeField::OpenRouterKey ==> final(self).zen_key@ == old(
                self,
            ).zen_key@,
            old(self)@.active_key().len() == 0 ==> final(self)@ == old(self)@,
            old(self)@.active_key().len() > 0 ==> final(self)@.active_key() == old(
                self,
            )@.active_key().subrange(0, old(self)@.active_key().len() - 1),
    {
        match self.active_field {
            FreeModeField::ZenKey => {
                self.zen_key.pop();
            },
            FreeModeField::OpenRouterKey => {
                self.openrouter_key.pop();
            },
        }
    }

    /// At least one key must be non-blank to enable the provider: the
    /// composite still works when only one upstream is authenticated.
    pub fn can_submit(&self) -> (r: bool)
        ensures
            r == self@.can_submit(),
    {
        !trim_to_string(self.zen_key.as_str()).as_str().is_empty()
            || !trim_to_string(self.openrouter_key.as_str()).as_str().is_empty()
    }

    /// Returns the trimmed `(zen_key, openrouter_key)` and closes the dialog.
    pub fn take_values(&mut self) -> (r: (String, String))
        ensures
            (r.0@, r.1@) == old(self)@.values(),
            r.0@ == trim_seq(old(self).zen_key@),
            r.1@ == trim_seq(old(self).openrouter_key@),
            final(self)@ == DialogView::reset(),
    {
        let zen = trim_to_string(self.zen_key.as_str());
        let or = trim_to_string(self.openrouter_key.as_str());
        self.close();
        (zen, or)
    }
}

impl Default for FreeModeDialogState {
    fn default() -> (r: Self)
        ensures
            r@ == DialogView::reset(),
    {
        Self::new()
    }
}

/// The displayed form of a key; see `masked`.
pub fn mask_key(input: &str) -> (r: String)
    ensures
        r@ == masked(input@),
{
    if input.is_empty() {
        return "paste your API key here...".to_string();
    }
    let chars = char_vec(input);
    let n = chars.len();
    if n <= 4 {
        return input.to_string();
    }
    let mut r = String::new();
    let mut i: usize = 0;
    while i < n - 4
        invariant
            4 < n == chars@.len(),
            i <= n - 4,
            r@ == Seq::new(i as nat, |k: int| mask_char()),
        decreases n - 4 - i,
    {
        r.push('\u{2022}');
        assert(r@ =~= Seq::new((i + 1) as nat, |k: int| mask_char()));
        i = i + 1;
    }
    let ghost head = r@;
    let mut j: usize = n - 4;
    while j < n
        invariant
            4 < n == chars@.len(),
            n - 4 <= j <= n,
            r@ == head + chars@.subrange(n - 4, j as int),
        decreases n - j,
    {
        r.push(chars[j]);
        assert(chars@.subrange(n - 4, j + 1) =~= chars@.subrange(n - 4, j as int).push(chars@[j as int]));
        j = j + 1;
    }
    r
}

} // verus!

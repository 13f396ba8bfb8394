//! Message tabs displayed in the request or response section of the Inspector.

use vstd::prelude::*;
use crate::text::IntoText;

verus! {

/// Syntax highlighting applied to the text of a [`TabContent`].
#[derive(Clone, Copy, Debug, PartialEq, Eq, Structural)]
pub enum Language {
    Text,
    Json,
    Xml,
    Html,
    Css,
    JavaScript,
    Yaml,
}

/// The contents rendered inside a [`MessageTab`].
#[derive(Clone, Debug)]
pub struct TabContent {
    text: String,
    language: Language,
}

impl TabContent {
    /// The text shown in the tab.
    pub closed spec fn text_view(&self) -> Seq<char> {
        self.text@
    }

    /// The highlighting applied to the text.
    pub closed spec fn language_view(&self) -> Language {
        self.language
    }

    /// Creates contents with an explicit `language`.
    pub fn new<T: IntoText>(text: T, language: Language) -> (r: Self)
        ensures
            r.text_view() == text.text_view(),
            r.language_view() == language,
    {
        Self { text: text.into_text(), language }
    }

    /// Creates contents without syntax highlighting.
    pub fn plain<T: IntoText>(text: T) -> (r: Self)
        ensures
            r.text_view() == text.text_view(),
            r.language_view() == Language::Text,
    {
        Self::new(text, Language::Text)
    }

    /// Creates contents highlighted as JSON.
    pub fn json<T: IntoText>(text: T) -> (r: Self)
        ensures
            r.text_view() == text.text_view(),
            r.language_view() == Language::Json,
    {
        Self::new(text, Language::Json)
    }

    /// Creates contents highlighted as XML.
    pub fn xml<T: IntoText>(text: T) -> (r: Self)
        ensures
            r.text_view() == text.text_view(),
            r.language_view() == Language::Xml,
    {
        Self::new(text, Language::Xml)
    }

    /// Creates contents highlighted as HTML.
    pub fn html<T: IntoText>(text: T) -> (r: Self)
        ensures
            r.text_view() == text.text_view(),
            r.language_view() == Language::Html,
    {
        Self::new(text, Language::Html)
    }

    /// Creates contents highlighted as CSS.
    pub fn css<T: IntoText>(text: T) -> (r: Self)
        ensures
            r.text_view() == text.text_view(),
            r.language_view() == Language::Css,
    {
        Self::new(text, Language::Css)
    }

    /// Creates contents highlighted as JavaScript.
    pub fn javascript<T: IntoText>(text: T) -> (r: Self)
        ensures
            r.text_view() == text.text_view(),
            r.language_view() == Language::JavaScript,
    {
        Self::new(text, Language::JavaScript)
    }

    /// Creates contents highlighted as YAML.
    pub fn yaml<T: IntoText>(text: T) -> (r: Self)
        ensures
            r.text_view() == text.text_view(),
            r.language_view() == Language::Yaml,
    {
        Self::new(text, Language::Yaml)
    }

    /// The text shown in the tab.
    pub fn text(&self) -> (r: &str)
        ensures
            r@ == self.text_view(),
    {
        self.text.as_str()
    }

    /// The highlighting applied to the text.
    pub fn language(&self) -> (r: Language)
        ensures
            r == self.language_view(),
    {
        self.language
    }
}

/// The handlers of a message tab: the one that renders its contents and,
/// optionally, the predicate that decides for which entries it is shown.
pub struct MessageTabHandlers<C, V> {
    pub content: C,
    pub visibility: Option<V>,
}

/// A tab displayed next to Headers, Cookies, Query, Body and Raw in the request
/// or response section of the Inspector.
///
/// The content handler `C` renders the [`TabContent`] of an entry. A tab is
/// visible for every entry unless [`visible_when`](MessageTab::visible_when)
/// narrows it down with a predicate `V`.
pub struct MessageTab<C, V> {
    id: String,
    label: String,
    content: C,
    visibility: Option<V>,
}

impl<C, V> MessageTab<C, V> {
    /// The tab's identifier.
    pub closed spec fn id_view(&self) -> Seq<char> {
        self.id@
    }

    /// The tab's display label.
    pub closed spec fn label_view(&self) -> Seq<char> {
        self.label@
    }

    /// The handler that renders the tab's contents.
    pub closed spec fn content_view(&self) -> C {
        self.content
    }

    /// The predicate that decides when the tab is shown, if any.
    pub closed spec fn visibility_view(&self) -> Option<V> {
        self.visibility
    }

    /// Creates a new tab with the given `id`, display `label` and content handler.
    pub fn new<I: IntoText, L: IntoText>(id: I, label: L, content: C) -> (r: Self)
        ensures
            r.id_view() == id.text_view(),
            r.label_view() == label.text_view(),
            r.content_view() == content,
            r.visibility_view() == None::<V>,
    {
        Self { id: id.into_text(), label: label.into_text(), content, visibility: None }
    }

    /// Restricts the tab to entries for which `visibility` says so.
    pub fn visible_when(self, visibility: V) -> (r: Self)
        ensures
            r.id_view() == self.id_view(),
            r.label_view() == self.label_view(),
            r.content_view() == self.content_view(),
            r.visibility_view() == Some(visibility),
    {
        let mut s = self;
        s.visibility = Some(visibility);
        s
    }

    /// The tab's identifier.
    pub fn id(&self) -> (r: &str)
        ensures
            r@ == self.id_view(),
    {
        self.id.as_str()
    }

    /// The tab's display label.
    pub fn label(&self) -> (r: &str)
        ensures
            r@ == self.label_view(),
    {
        self.label.as_str()
    }

    /// Whether the tab is shown only for some entries (it has a predicate).
    pub fn is_conditional(&self) -> (r: bool)
        ensures
            r == self.visibility_view() is Some,
    {
        self.visibility.is_some()
    }
}

impl<C: Clone, V: Clone> MessageTab<C, V> {
    /// The tab's id with clones of its handlers.
    pub fn extract_handlers(&self) -> (r: (String, MessageTabHandlers<C, V>))
        ensures
            r.0@ == self.id_view(),
            cloned(self.content_view(), r.1.content),
            match self.visibility_view() {
                None => r.1.visibility is None,
                Some(v) => r.1.visibility matches Some(w) && cloned(v, w),
            },
    {
        let visibility = match &self.visibility {
            Some(v) => Some(v.clone()),
            None => None,
        };
        (self.id.clone(), MessageTabHandlers { content: self.content.clone(), visibility })
    }
}

} // verus!

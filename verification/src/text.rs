//! Localizable text: a display string with optional namespace, key and
//! source string.

use vstd::prelude::*;

verus! {

/// A piece of text to show: the display string, and, when the text is
/// localizable, the namespace, key and source string it came from.
#[derive(Debug)]
pub struct Text {
    /// The display string
    pub display_string: String,
    /// Namespace for localization
    pub namespace: Option<String>,
    /// Key for localization
    pub key: Option<String>,
    /// Source string for localization
    pub source_string: Option<String>,
}

impl Text {
    /// Plain text: just a display string, with no localization data.
    pub fn new(display_string: &str) -> (r: Self)
        ensures
            r.display_string@ == display_string@,
            r.namespace is None,
            r.key is None,
            r.source_string is None,
    {
        Self {
            display_string: display_string.to_owned(),
            namespace: None,
            key: None,
            source_string: None,
        }
    }

    /// Localizable text: the display string starts out as the source
    /// string, until a localization replaces it.
    pub fn from_key(namespace: &str, key: &str, source: &str) -> (r: Self)
        ensures
            r.display_string@ == source@,
            r.namespace matches Some(n) && n@ == namespace@,
            r.key matches Some(k) && k@ == key@,
            r.source_string matches Some(s) && s@ == source@,
    {
        Self {
            display_string: source.to_owned(),
            namespace: Some(namespace.to_owned()),
            key: Some(key.to_owned()),
            source_string: Some(source.to_owned()),
        }
    }

    /// The display string.
    pub fn as_str(&self) -> (r: &str)
        ensures
            r@ == self.display_string@,
    {
        self.display_string.as_str()
    }

    /// Whether the display string is empty.
    pub fn is_empty(&self) -> (r: bool)
        ensures
            r == (self.display_string@.len() == 0),
    {
        self.display_string.as_str().is_empty()
    }

    /// Whether the text can be localized: it has both a namespace and a
    /// key.
    pub fn is_localizable(&self) -> (r: bool)
        ensures
            r == (self.namespace is Some && self.key is Some),
    {
        self.namespace.is_some() && self.key.is_some()
    }

    /// Replaces the display string, leaving the localization data as it
    /// is.
    pub fn set_display_string(&mut self, display_string: &str)
        ensures
            final(self).display_string@ == display_string@,
            final(self).namespace == old(self).namespace,
            final(self).key == old(self).key,
            final(self).source_string == old(self).source_string,
    {
        self.display_string = display_string.to_owned();
    }
}

impl Default for Text {
    /// The default text is empty.
    fn default() -> (r: Self)
        ensures
            r.display_string@ == Seq::<char>::empty(),
            r.namespace is None,
            r.key is None,
            r.source_string is None,
    {
        proof {
            reveal_strlit("");
            assert(""@ =~= Seq::<char>::empty());
        }
        Self::new("")
    }
}

} // verus!

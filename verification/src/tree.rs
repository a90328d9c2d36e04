use vstd::prelude::*;

verus! {

/// A key of a node in the tree of a game's saved files and registry entries.
#[derive(Clone, Debug, Eq, PartialEq, Ord, PartialOrd, Hash)]
pub enum TreeNodeKey {
    File(String),
    RegistryKey(String),
    RegistryValue(String),
}

impl TreeNodeKey {
    /// The text that the key holds, whatever its kind.
    pub open spec fn text(self) -> Seq<char> {
        match self {
            TreeNodeKey::File(x) => x@,
            TreeNodeKey::RegistryKey(x) => x@,
            TreeNodeKey::RegistryValue(x) => x@,
        }
    }

    pub fn raw(&self) -> (r: &str)
        ensures
            r@ == self.text(),
            match self {
                TreeNodeKey::File(x) => r@ == x@,
                TreeNodeKey::RegistryKey(x) => r@ == x@,
                TreeNodeKey::RegistryValue(x) => r@ == x@,
            },
    {
        match self {
            Self::File(x) => x.as_str(),
            Self::RegistryKey(x) => x.as_str(),
            Self::RegistryValue(x) => x.as_str(),
        }
    }
}

/// Whatever its kind, a key's text is the string it was made from, so keys
/// of different kinds made from the same string have the same text.
pub proof fn lemma_text_is_the_held_string(x: String)
    ensures
        TreeNodeKey::File(x).text() == x@,
        TreeNodeKey::RegistryKey(x).text() == x@,
        TreeNodeKey::RegistryValue(x).text() == x@,
{
}

} // verus!

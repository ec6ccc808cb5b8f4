//! Label domain types: folders, labels and their kinds.

use vstd::prelude::*;

verus! {

/// The kind of label a listing asks for.
#[derive(Debug, Clone, Copy, PartialEq, Eq, Structural)]
pub enum LabelType {
    /// A user label.
    Label,
    /// A contact group.
    ContactGroup,
    /// A user folder.
    Folder,
    /// A system folder such as the inbox.
    System,
}

impl LabelType {
    /// The integer the API assigns to this label kind.
    pub fn value(&self) -> (v: u32)
        ensures
            v == self.spec_value(),
    {
        match self {
            LabelType::Label => 1,
            LabelType::ContactGroup => 2,
            LabelType::Folder => 3,
            LabelType::System => 4,
        }
    }

    pub open spec fn spec_value(&self) -> u32 {
        match self {
            LabelType::Label => 1u32,
            LabelType::ContactGroup => 2u32,
            LabelType::Folder => 3u32,
            LabelType::System => 4u32,
        }
    }
}

/// A label or folder as stored by the service.
#[derive(Debug)]
pub struct Label {
    /// Label API ID.
    pub id: crate::message::LabelId,
    /// Display name.
    pub name: String,
    /// Display color.
    pub color: String,
    /// The kind of label.
    pub label_type: LabelType,
}

} // verus!

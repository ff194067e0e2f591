use vstd::prelude::*;

verus! {

/// Identity of the column currently targeted for editing: none, a brand-new
/// unsaved expression, or an existing expression referenced by its alias.
pub enum ColumnLocator {
    /// No expression column is selected; the controller is inert.
    NoExpression,
    /// An expression is being created; it has no alias yet.
    NewExpression,
    /// An expression is being edited; the string is its identifying alias.
    ExistingExpression(String),
}

impl ColumnLocator {
    /// The editor widget is shown exactly for a new or an existing expression.
    pub open spec fn editor_shown(&self) -> bool {
        self is NewExpression || self is ExistingExpression
    }

    /// The alias pre-filled into the editor: the alias of an existing
    /// expression, and nothing otherwise.
    pub open spec fn alias_spec(&self) -> Option<Seq<char>> {
        match self {
            ColumnLocator::ExistingExpression(alias) => Some(alias@),
            _ => None,
        }
    }

    /// Whether to render the editor at all for this locator.
    pub fn is_editor_shown(&self) -> (shown: bool)
        ensures
            shown == self.editor_shown(),
    {
        match self {
            ColumnLocator::NewExpression => true,
            ColumnLocator::ExistingExpression(_) => true,
            ColumnLocator::NoExpression => false,
        }
    }

    /// The optional alias to hand the editor as its pre-fill value.
    pub fn editor_alias(&self) -> (alias: Option<String>)
        ensures
            match alias {
                Some(a) => self.alias_spec() == Some(a@),
                None => self.alias_spec() is None,
            },
    {
        match self {
            ColumnLocator::ExistingExpression(a) => Some(a.clone()),
            _ => None,
        }
    }
}

} // verus!

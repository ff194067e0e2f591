use vstd::prelude::*;

use crate::expressions::{replace_matching, replaced_texts};

verus! {

/// A partial configuration patch: a field left `None` means "leave
/// unchanged".  This controller only ever sets the expression list.
pub struct ViewConfigUpdate {
    pub expressions: Option<Vec<String>>,
}

impl ViewConfigUpdate {
    /// The patched expression list, if the patch sets one.
    pub open spec fn expressions_spec(&self) -> Option<Seq<Seq<char>>> {
        match self.expressions {
            Some(list) => Some(list.deep_view()),
            None => None,
        }
    }

    /// A patch that changes nothing.
    pub fn empty() -> (update: ViewConfigUpdate)
        ensures
            update.expressions is None,
    {
        ViewConfigUpdate { expressions: None }
    }
}

/// The live view configuration, reduced to the one field this controller
/// reads and writes: the ordered, duplicate-free expression list.
pub struct ViewConfig {
    pub expressions: Vec<String>,
}

/// One alias-to-expression-text entry of the session's metadata.
pub struct MetadataEntry {
    pub alias: String,
    pub text: String,
}

/// The expression text recorded for `alias`, searching entries in order;
/// `None` when no entry carries that alias.
pub open spec fn alias_lookup(metadata: Seq<MetadataEntry>, alias: Seq<char>) -> Option<Seq<char>>
    decreases metadata.len(),
{
    if metadata.len() == 0 {
        None
    } else if metadata[0].alias@ == alias {
        Some(metadata[0].text@)
    } else {
        alias_lookup(metadata.drop_first(), alias)
    }
}

/// Shared analytic state: the live view configuration and the
/// alias-to-expression-text metadata.  The controller borrows a session for
/// the lifetime of each operation and never owns it.
pub struct Session {
    pub config: ViewConfig,
    pub metadata: Vec<MetadataEntry>,
}

impl Session {
    pub fn new(config: ViewConfig, metadata: Vec<MetadataEntry>) -> (session: Session)
        ensures
            session.config == config,
            session.metadata == metadata,
    {
        Session { config, metadata }
    }

    /// The current view configuration.
    pub fn get_view_config(&self) -> (config: &ViewConfig)
        ensures
            config == &self.config,
    {
        &self.config
    }

    /// The metadata's expression text for `alias`, or `None` when the alias
    /// has no entry.
    pub fn get_expression_by_alias(&self, alias: &String) -> (text: Option<String>)
        ensures
            match text {
                Some(t) => alias_lookup(self.metadata@, alias@) == Some(t@),
                None => alias_lookup(self.metadata@, alias@) is None,
            },
    {
        let mut i: usize = 0;
        proof {
            assert(self.metadata@.skip(0) =~= self.metadata@);
        }
        while i < self.metadata.len()
            invariant
                i <= self.metadata.len(),
                alias_lookup(self.metadata@, alias@) == alias_lookup(
                    self.metadata@.skip(i as int),
                    alias@,
                ),
            decreases self.metadata.len() - i,
        {
            proof {
                assert(self.metadata@.skip(i as int).drop_first() =~= self.metadata@.skip(
                    i + 1 as int,
                ));
                assert(self.metadata@.skip(i as int)[0] == self.metadata@[i as int]);
            }
            let entry = &self.metadata[i];
            if entry.alias == *alias {
                return Some(entry.text.clone());
            }
            i = i + 1;
        }
        proof {
            assert(self.metadata@.skip(self.metadata.len() as int) =~= Seq::<
                MetadataEntry,
            >::empty());
        }
        None
    }

    /// Translates an alias-based replace request into a configuration patch:
    /// the alias is resolved through the metadata to the old expression text,
    /// and every list entry equal to that text becomes the new text, leaving
    /// the list's length and every other entry unchanged.  An alias with no
    /// metadata entry yields no patch.
    pub fn create_replace_expression_update(&self, alias: &String, new_text: &String) -> (update:
        Option<ViewConfigUpdate>)
        ensures
            match alias_lookup(self.metadata@, alias@) {
                Some(old_text) => match update {
                    Some(u) => u.expressions_spec() == Some(
                        replaced_texts(self.config.expressions.deep_view(), old_text, new_text@),
                    ),
                    None => false,
                },
                None => update is None,
            },
    {
        match self.get_expression_by_alias(alias) {
            Some(old_text) => {
                let replaced = replace_matching(&self.config.expressions, &old_text, new_text);
                Some(ViewConfigUpdate { expressions: Some(replaced) })
            },
            None => None,
        }
    }

    /// Merges a configuration patch into the live configuration: a set field
    /// overwrites, an unset field leaves the configuration unchanged.  The
    /// metadata is never touched by a patch.
    pub fn apply_update(&mut self, update: ViewConfigUpdate)
        ensures
            final(self).metadata == old(self).metadata,
            match update.expressions {
                Some(list) => final(self).config.expressions == list,
                None => final(self).config == old(self).config,
            },
    {
        match update.expressions {
            Some(list) => {
                self.config.expressions = list;
            },
            None => {},
        }
    }
}

} // verus!

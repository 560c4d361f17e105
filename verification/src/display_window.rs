//! The state behind the two windows: the configuration form, and the flag
//! that closes the confirmation popup.
//!
//! The windows themselves are drawn by the host. The form holds what the
//! user has typed; it is filled from a saved configuration, checked, and
//! turned back into a configuration to save. Where the host shares the flag
//! between threads, it calls the two functions on it with the lock held.

use vstd::prelude::*;
use vstd::string::StringExecFns;
use crate::backup::Config;
use crate::text::{
    blank, is_blank, join_list, joined_list, lemma_split_after_plain_text,
    lemma_split_after_separator, lemma_split_has_a_piece, lemma_trimmed_is_unchanged, same_text,
    split, split_trimmed, texts, trimmed_all, white_space,
};

verus! {

/// The configuration form: one text field for each part of a
/// configuration. The extensions are one text, separated by commas.
#[derive(Debug)]
pub struct ConfigWindow {
    pub source_path: String,
    pub destination_path: String,
    pub backup_type: String,
    pub extensions_to_backup: String,
}

/// The text that a list of extensions is shown as.
pub open spec fn shown_extensions(extensions: Seq<Seq<char>>) -> Seq<char> {
    joined_list(extensions, ", "@)
}

/// The list of extensions that a text stands for: its pieces between
/// commas, each without the white space around it.
pub open spec fn typed_extensions(text: Seq<char>) -> Seq<Seq<char>> {
    trimmed_all(split(text, ','))
}

/// An extension that the form shows and reads back unchanged: it holds no
/// comma and neither begins nor ends with white space.
pub open spec fn plain_extension(extension: Seq<char>) -> bool {
    &&& !extension.contains(',')
    &&& extension.len() > 0 ==> !white_space(extension[0]) && !white_space(extension.last())
}

/// The pieces of the text that a list of plain extensions is shown as: the
/// first extension as it is, every other one after a blank.
pub proof fn lemma_shown_extensions_split(extensions: Seq<Seq<char>>)
    requires
        extensions.len() >= 1,
        forall|i: int| 0 <= i < extensions.len() ==> plain_extension(#[trigger] extensions[i]),
    ensures
        split(shown_extensions(extensions), ',').len() == extensions.len(),
        split(shown_extensions(extensions), ',')[0] == extensions[0],
        forall|i: int|
            1 <= i < extensions.len() ==> #[trigger] split(shown_extensions(extensions), ',')[i]
                == seq![' '] + extensions[i],
    decreases extensions.len(),
{
    reveal_strlit(", ");
    assert(", "@ =~= seq![',', ' ']);
    let last = extensions.last();
    assert(plain_extension(extensions[extensions.len() - 1]));
    if extensions.len() == 1 {
        assert(shown_extensions(extensions) =~= Seq::<char>::empty() + last);
        lemma_split_after_plain_text(Seq::empty(), last, ',');
        assert(split(Seq::<char>::empty(), ',') =~= seq![Seq::<char>::empty()]);
        assert(Seq::<char>::empty() + last =~= last);
    } else {
        let earlier = extensions.drop_last();
        assert forall|i: int| 0 <= i < earlier.len() implies plain_extension(
            #[trigger] earlier[i],
        ) by {
            assert(earlier[i] == extensions[i]);
        }
        lemma_shown_extensions_split(earlier);
        let shown = shown_extensions(earlier);
        let tail = seq![' '] + last;
        assert(shown_extensions(extensions) =~= shown.push(',') + tail);
        assert(!tail.contains(',')) by {
            if tail.contains(',') {
                let i = choose|i: int| 0 <= i < tail.len() && tail[i] == ',';
                assert(i > 0);
                assert(last[i - 1] == ',');
            }
        }
        lemma_split_after_separator(shown, ',');
        lemma_split_after_plain_text(shown.push(','), tail, ',');
        lemma_split_has_a_piece(shown, ',');
        let pieces = split(shown_extensions(extensions), ',');
        assert(pieces =~= split(shown, ',').push(tail)) by {
            assert(split(shown, ',').push(Seq::<char>::empty()).drop_last() =~= split(shown, ','));
            assert(Seq::<char>::empty() + tail =~= tail);
        }
        assert forall|i: int| 1 <= i < extensions.len() implies #[trigger] pieces[i] == seq![' ']
            + extensions[i] by {
            if i < earlier.len() {
                assert(pieces[i] == split(shown, ',')[i]);
                assert(earlier[i] == extensions[i]);
            }
        }
        assert(pieces[0] == split(shown, ',')[0]);
        assert(earlier[0] == extensions[0]);
    }
}

/// A list of plain extensions that is shown in the form and read back is
/// the list that it was.
pub proof fn lemma_shown_extensions_read_back(extensions: Seq<Seq<char>>)
    requires
        extensions.len() >= 1,
        forall|i: int| 0 <= i < extensions.len() ==> plain_extension(#[trigger] extensions[i]),
    ensures
        typed_extensions(shown_extensions(extensions)) == extensions,
{
    lemma_shown_extensions_split(extensions);
    let pieces = split(shown_extensions(extensions), ',');
    let read = typed_extensions(shown_extensions(extensions));
    assert(read.len() == extensions.len());
    assert forall|i: int| 0 <= i < extensions.len() implies read[i] == extensions[i] by {
        assert(plain_extension(extensions[i]));
        lemma_trimmed_is_unchanged(extensions[i], ' ');
        if i >= 1 {
            assert(pieces[i] == seq![' '] + extensions[i]);
        }
    }
    assert(read =~= extensions);
}

impl ConfigWindow {
    /// Every field is empty.
    pub open spec fn is_empty(&self) -> bool {
        &&& self.source_path@.len() == 0
        &&& self.destination_path@.len() == 0
        &&& self.backup_type@.len() == 0
        &&& self.extensions_to_backup@.len() == 0
    }

    /// The form shows `config`.
    pub open spec fn shows(&self, config: Config) -> bool {
        &&& self.source_path@ == config.source_path@
        &&& self.destination_path@ == config.destination_path@
        &&& self.backup_type@ == config.backup_type@
        &&& self.extensions_to_backup@ == shown_extensions(texts(config.extensions_to_backup@))
    }

    /// `config` is what the form holds.
    pub open spec fn holds(&self, config: Config) -> bool {
        &&& config.source_path@ == self.source_path@
        &&& config.destination_path@ == self.destination_path@
        &&& config.backup_type@ == self.backup_type@
        &&& texts(config.extensions_to_backup@) == typed_extensions(self.extensions_to_backup@)
    }

    /// The source is missing.
    pub open spec fn lacks_source(&self) -> bool {
        blank(self.source_path@)
    }

    /// The destination is missing.
    pub open spec fn lacks_destination(&self) -> bool {
        blank(self.destination_path@)
    }

    /// The backup is selective and no extension is given.
    pub open spec fn lacks_extensions(&self) -> bool {
        self.backup_type@ == "selective"@ && blank(self.extensions_to_backup@)
    }

    /// Source and destination are the same.
    pub open spec fn copies_onto_itself(&self) -> bool {
        self.source_path@ == self.destination_path@
    }

    /// The form can be saved: source, destination and backup type are
    /// given, a selective backup has its extensions, and the destination
    /// is not the source.
    pub open spec fn valid(&self) -> bool {
        &&& !self.lacks_source()
        &&& !self.lacks_destination()
        &&& !blank(self.backup_type@)
        &&& !self.lacks_extensions()
        &&& !self.copies_onto_itself()
    }

    /// What is wrong with the form, one line for each fault.
    pub open spec fn faults(&self) -> Seq<char> {
        (if self.lacks_source() {
            "Source path is required.\n"@
        } else {
            Seq::empty()
        }) + (if self.lacks_destination() {
            "Destination path is required.\n"@
        } else {
            Seq::empty()
        }) + (if self.lacks_extensions() {
            "Extensions are required for selective backup.\n"@
        } else {
            Seq::empty()
        }) + (if self.copies_onto_itself() {
            "Source and destination paths cannot be the same.\n"@
        } else {
            Seq::empty()
        })
    }

    /// The form as it opens: it shows the saved configuration where there
    /// is one, and is empty where there is none.
    pub fn new(saved: Option<Config>) -> (form: ConfigWindow)
        ensures
            match saved {
                Some(config) => form.shows(config),
                None => form.is_empty(),
            },
    {
        let mut form = ConfigWindow {
            source_path: String::new(),
            destination_path: String::new(),
            backup_type: String::new(),
            extensions_to_backup: String::new(),
        };
        match saved {
            Some(config) => {
                form.read_config(config);
            },
            None => {},
        }
        form
    }

    /// Fills the form from a configuration. The extensions are shown as
    /// one text, with a comma and a blank between each two.
    pub fn read_config(&mut self, config: Config)
        ensures
            final(self).shows(config),
    {
        let extensions = join_list(&config.extensions_to_backup, ", ");
        self.source_path = config.source_path;
        self.destination_path = config.destination_path;
        self.backup_type = config.backup_type;
        self.extensions_to_backup = extensions;
    }

    /// The configuration that the form holds. The text of the extensions
    /// is cut at the commas, and each piece loses the white space around
    /// it; a text without a comma is one extension, the empty text too.
    pub fn save_config(&self) -> (config: Config)
        ensures
            self.holds(config),
    {
        Config {
            source_path: self.source_path.clone(),
            destination_path: self.destination_path.clone(),
            backup_type: self.backup_type.clone(),
            extensions_to_backup: split_trimmed(self.extensions_to_backup.as_str(), ','),
        }
    }

    /// Whether the form can be saved.
    pub fn is_valid(&self) -> (valid: bool)
        ensures
            valid == self.valid(),
    {
        !is_blank(self.source_path.as_str()) && !is_blank(self.destination_path.as_str())
            && !is_blank(self.backup_type.as_str()) && (!same_text(
            self.backup_type.as_str(),
            "selective",
        ) || !is_blank(self.extensions_to_backup.as_str())) && !same_text(
            self.source_path.as_str(),
            self.destination_path.as_str(),
        )
    }

    /// What is wrong with the form, one line for each fault; empty where
    /// nothing is.
    pub fn error_message(&self) -> (message: String)
        ensures
            message@ == self.faults(),
    {
        let mut message = String::new();
        if is_blank(self.source_path.as_str()) {
            message.append("Source path is required.\n");
        }
        if is_blank(self.destination_path.as_str()) {
            message.append("Destination path is required.\n");
        }
        if same_text(self.backup_type.as_str(), "selective") && is_blank(
            self.extensions_to_backup.as_str(),
        ) {
            message.append("Extensions are required for selective backup.\n");
        }
        if same_text(self.source_path.as_str(), self.destination_path.as_str()) {
            message.append("Source and destination paths cannot be the same.\n");
        }
        proof {
            assert(message@ =~= self.faults());
        }
        message
    }
}

impl Default for ConfigWindow {
    /// The empty form.
    fn default() -> (form: ConfigWindow)
        ensures
            form.is_empty(),
    {
        ConfigWindow::new(None)
    }
}

/// Asks the confirmation popup to close.
pub fn close_backup_window(should_close: &mut bool)
    ensures
        *final(should_close),
{
    *should_close = true;
}

/// Whether the confirmation popup is still open: it is until it has been
/// asked to close.
pub fn is_window_open(should_close: &bool) -> (open: bool)
    ensures
        open == !*should_close,
{
    !*should_close
}

} // verus!

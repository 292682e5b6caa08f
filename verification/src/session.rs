//! The document session: the text being edited, the file it is bound to, if
//! any, and the title shown for it.
//!
//! A session is either untitled or bound to a path. It never reads or writes
//! a file and never asks the user for a path: it says where a save should
//! go, and is told what a read gave and that a write went through.

use crate::lines::{count_lines, line_count};
use crate::path::{file_name, final_component};
use crate::text::string_from_utf8;
use vstd::prelude::*;
use vstd::utf8::{decode_utf8, encode_utf8_decode_utf8, valid_utf8};

verus! {

/// The title of a session that is bound to no file.
pub open spec fn untitled_title() -> Seq<char> {
    "Untitled"@
}

/// The title of a session once it is bound to `path`: the file-name
/// component of the path, or the title it had before where the path has
/// none.
pub open spec fn title_for(path: Seq<char>, previous: Seq<char>) -> Seq<char> {
    match final_component(path) {
        Some(name) => name,
        None => previous,
    }
}

/// What a session holds.
pub struct SessionView {
    pub content: Seq<char>,
    pub path: Option<Seq<char>>,
    pub title: Seq<char>,
}

impl SessionView {
    /// The empty, untitled session.
    pub open spec fn untitled() -> SessionView {
        SessionView { content: Seq::empty(), path: None, title: untitled_title() }
    }

    /// The session with its text replaced by `text`.
    pub open spec fn edited(self, text: Seq<char>) -> SessionView {
        SessionView { content: text, path: self.path, title: self.title }
    }

    /// The session bound to `path`, its text as it was.
    pub open spec fn bound_to(self, path: Seq<char>) -> SessionView {
        SessionView {
            content: self.content,
            path: Some(path),
            title: title_for(path, self.title),
        }
    }

    /// The session after `text` was read from `path`.
    pub open spec fn opened(self, path: Seq<char>, text: Seq<char>) -> SessionView {
        self.edited(text).bound_to(path)
    }

    /// The title agrees with the path: an untitled session carries the
    /// untitled title, and a bound one the file-name component of its path
    /// where the path has one.
    pub open spec fn consistent(self) -> bool {
        match self.path {
            None => self.title == untitled_title(),
            Some(path) => match final_component(path) {
                Some(name) => self.title == name,
                None => true,
            },
        }
    }
}

/// A new session's title agrees with its path, and every step leaves it so.
pub proof fn lemma_steps_keep_consistency(s: SessionView, path: Seq<char>, text: Seq<char>)
    ensures
        SessionView::untitled().consistent(),
        s.consistent() ==> s.edited(text).consistent(),
        s.bound_to(path).consistent(),
        s.opened(path, text).consistent(),
{
}

/// Opening a path twice in a row, the file giving the same text both times,
/// leaves the session as opening it once does.
pub proof fn lemma_reopening_changes_nothing(s: SessionView, path: Seq<char>, text: Seq<char>)
    ensures
        s.opened(path, text).opened(path, text) == s.opened(path, text),
{
}

/// Saving a bound session to the path it is bound to leaves it as it was.
pub proof fn lemma_saving_in_place_changes_nothing(s: SessionView, path: Seq<char>)
    requires
        s.consistent(),
        s.path == Some(path),
    ensures
        s.bound_to(path) == s,
{
}

/// Why a file could not be opened.
#[derive(Debug, Clone, Copy, PartialEq, Eq, Structural)]
pub enum ReadFailure {
    /// The file could not be read.
    Unreadable,
    /// The file does not hold UTF-8 text.
    InvalidEncoding,
}

/// Where a save goes, or where a reload reads from.
#[derive(Debug, PartialEq, Eq)]
pub enum PathDecision {
    /// To the path the session is bound to.
    UseExistingPath(String),
    /// The session is untitled: the user has to choose a path.
    NeedsPathFromUser,
}

#[derive(Debug)]
enum Binding {
    Untitled,
    Bound { path: String, title: String },
}

/// The single document of an editor.
#[derive(Debug)]
pub struct DocumentSession {
    content: String,
    binding: Binding,
}

impl View for DocumentSession {
    type V = SessionView;

    closed spec fn view(&self) -> SessionView {
        match self.binding {
            Binding::Untitled => SessionView {
                content: self.content@,
                path: None,
                title: untitled_title(),
            },
            Binding::Bound { path, title } => SessionView {
                content: self.content@,
                path: Some(path@),
                title: title@,
            },
        }
    }
}

/// The text that a read gave: the bytes decoded as UTF-8, or why there is
/// none. `None` stands for a read that failed.
pub open spec fn read_text(read: Option<Vec<u8>>) -> Result<Seq<char>, ReadFailure> {
    match read {
        None => Err(ReadFailure::Unreadable),
        Some(bytes) => if valid_utf8(bytes@) {
            Ok(decode_utf8(bytes@))
        } else {
            Err(ReadFailure::InvalidEncoding)
        },
    }
}

/// Decodes what a read gave.
pub fn decode_read(read: Option<Vec<u8>>) -> (text: Result<String, ReadFailure>)
    ensures
        match text {
            Ok(s) => read_text(read) == Ok::<Seq<char>, ReadFailure>(s@),
            Err(failure) => read_text(read) == Err::<Seq<char>, ReadFailure>(failure),
        },
{
    match read {
        None => Err(ReadFailure::Unreadable),
        Some(bytes) => match string_from_utf8(bytes) {
            Some(s) => {
                proof {
                    encode_utf8_decode_utf8(s@);
                }
                Ok(s)
            },
            None => Err(ReadFailure::InvalidEncoding),
        },
    }
}

impl DocumentSession {
    #[verifier::type_invariant]
    closed spec fn title_agrees(&self) -> bool {
        self@.consistent()
    }

    /// An empty, untitled session.
    pub fn new() -> (session: DocumentSession)
        ensures
            session@ == SessionView::untitled(),
            session@.consistent(),
    {
        DocumentSession { content: String::new(), binding: Binding::Untitled }
    }

    /// Starts a new document: whatever the session held is dropped.
    pub fn new_document(&mut self)
        ensures
            final(self)@ == SessionView::untitled(),
            final(self)@.consistent(),
    {
        self.binding = Binding::Untitled;
        self.content = String::new();
    }

    /// Replaces the text, as after an edit.
    pub fn set_content(&mut self, text: String)
        ensures
            final(self)@ == old(self)@.edited(text@),
            final(self)@.consistent(),
    {
        proof {
            use_type_invariant(&*self);
        }
        self.content = text;
    }

    /// Takes in the outcome of reading `candidate_path`. Where the read gave
    /// UTF-8 text, the session holds that text and is bound to the path;
    /// otherwise it is left as it was.
    pub fn open(&mut self, candidate_path: String, read: Option<Vec<u8>>) -> (outcome: Result<
        (),
        ReadFailure,
    >)
        ensures
            match read_text(read) {
                Ok(text) => outcome is Ok && final(self)@ == old(self)@.opened(
                    candidate_path@,
                    text,
                ),
                Err(failure) => outcome == Err::<(), ReadFailure>(failure) && final(self)@ == old(
                    self,
                )@,
            },
            outcome is Ok ==> final(self)@.path == Some(candidate_path@),
            outcome is Ok ==> (final_component(candidate_path@) matches Some(name)
                ==> final(self)@.title == name),
            final(self)@.consistent(),
    {
        proof {
            use_type_invariant(&*self);
        }
        match decode_read(read) {
            Ok(text) => {
                self.set_content(text);
                self.bind(candidate_path);
                Ok(())
            },
            Err(failure) => Err(failure),
        }
    }

    /// Where a reload reads from: the path the session is bound to, which is
    /// read again without asking, or one the user has yet to choose.
    pub fn open_target(&self) -> (decision: PathDecision)
        ensures
            match decision {
                PathDecision::UseExistingPath(path) => self@.path == Some(path@),
                PathDecision::NeedsPathFromUser => self@.path is None,
            },
    {
        self.save_target()
    }

    /// Where a save goes: to the path the session is bound to, or to one the
    /// user has yet to choose.
    pub fn save_target(&self) -> (decision: PathDecision)
        ensures
            match decision {
                PathDecision::UseExistingPath(path) => self@.path == Some(path@),
                PathDecision::NeedsPathFromUser => self@.path is None,
            },
    {
        match &self.binding {
            Binding::Untitled => PathDecision::NeedsPathFromUser,
            Binding::Bound { path, title: _ } => PathDecision::UseExistingPath(path.clone()),
        }
    }

    /// Records that the text was written to `path`: the session is bound to
    /// it. Not to be called where the write failed.
    pub fn after_save(&mut self, path: String)
        ensures
            final(self)@ == old(self)@.bound_to(path@),
            final(self)@.path == Some(path@),
            final_component(path@) matches Some(name) ==> final(self)@.title == name,
            final(self)@.consistent(),
    {
        self.bind(path);
    }

    fn bind(&mut self, path: String)
        ensures
            final(self)@ == old(self)@.bound_to(path@),
    {
        let title = match file_name(path.as_str()) {
            Some(name) => name.to_owned(),
            None => self.title().to_owned(),
        };
        self.binding = Binding::Bound { path, title };
    }

    /// The number of lines of the text.
    pub fn line_count(&self) -> (n: usize)
        ensures
            n == line_count(self@.content),
    {
        count_lines(self.content.as_str())
    }

    /// The text.
    pub fn content(&self) -> (text: &str)
        ensures
            text@ == self@.content,
    {
        self.content.as_str()
    }

    /// The path the session is bound to.
    pub fn path(&self) -> (path: Option<&str>)
        ensures
            match path {
                Some(p) => self@.path == Some(p@),
                None => self@.path is None,
            },
    {
        match &self.binding {
            Binding::Untitled => None,
            Binding::Bound { path, title: _ } => Some(path.as_str()),
        }
    }

    /// The title to show, which agrees with the path.
    pub fn title(&self) -> (title: &str)
        ensures
            title@ == self@.title,
            self@.consistent(),
    {
        proof {
            use_type_invariant(self);
        }
        match &self.binding {
            Binding::Untitled => "Untitled",
            Binding::Bound { path: _, title } => title.as_str(),
        }
    }
}

} // verus!

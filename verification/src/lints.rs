//! The configuration: three lists of lint names and the file they belong to.

use crate::document::{
    names_at, parse_table, read_names, toml_document, toml_pretty, write_table, Document,
    DocumentView, Lists, ListsView,
};
use crate::error::{LintsError, ParseError};
use crate::flags::{flag_pairs, pair_flags};
use crate::order::{is_sort_of, sort_names};
use crate::severity::Severity;
use std::path::PathBuf;
use vstd::prelude::*;
use vstd::string::StringExecFns;

verus! {

/// The name of the configuration file.
pub const LINTS_FILE: &'static str = "lints.toml";

/// The comment that stands at the head of a formatted configuration file.
pub const COMMENT: &'static str =
    "#\n# For all clippy lints please visit: https://rust-lang.github.io/rust-clippy/master/\n#\n";

/// The program that runs the linter.
pub const PROGRAM: &'static str = "cargo";

/// The subcommand by which the program runs the linter.
pub const LINTER: &'static str = "clippy";

/// The argument behind which the linter takes its own flags.
pub const SEPARATOR: &'static str = "--";

/// A path in the filesystem. The library carries such a path and never looks
/// into it.
#[verifier::external_type_specification]
#[verifier::external_body]
pub struct ExPathBuf(PathBuf);

/// The lints of a project, by severity.
///
/// A name may stand in a list more than once and in more than one list: the
/// lists are kept as they were written.
#[derive(Clone, Debug)]
pub struct Lints {
    /// The file that the configuration was read from and is written to, if
    /// it has one.
    pub file: Option<PathBuf>,
    /// The lints whose findings break the build.
    pub deny: Vec<String>,
    /// The lints whose findings are suppressed.
    pub allow: Vec<String>,
    /// The lints whose findings are reported as warnings.
    pub warn: Vec<String>,
}

/// A configuration as a mathematical value.
pub struct LintsView {
    pub file: Option<PathBuf>,
    pub deny: Seq<Seq<char>>,
    pub allow: Seq<Seq<char>>,
    pub warn: Seq<Seq<char>>,
}

impl View for Lints {
    type V = LintsView;

    open spec fn view(&self) -> LintsView {
        LintsView {
            file: self.file,
            deny: self.deny.deep_view(),
            allow: self.allow.deep_view(),
            warn: self.warn.deep_view(),
        }
    }
}

/// The configuration without a file and without a lint.
pub open spec fn empty_lints() -> LintsView {
    LintsView { file: None, deny: Seq::empty(), allow: Seq::empty(), warn: Seq::empty() }
}

/// The configuration that a document holds for the file `file`, or the first
/// severity, in the order deny, allow, warn, whose key holds something other
/// than a list of strings.
pub open spec fn lints_of(file: Option<PathBuf>, document: DocumentView) -> Result<
    LintsView,
    Severity,
> {
    match names_at(document, Severity::Deny.key_text()) {
        None => Err(Severity::Deny),
        Some(deny) => match names_at(document, Severity::Allow.key_text()) {
            None => Err(Severity::Allow),
            Some(allow) => match names_at(document, Severity::Warn.key_text()) {
                None => Err(Severity::Warn),
                Some(warn) => Ok(LintsView { file, deny, allow, warn }),
            },
        },
    }
}

/// What loading the text `text` of the file `file` comes to, given the
/// document that the parser made of the text.
pub open spec fn loaded(
    file: PathBuf,
    parsed: Option<DocumentView>,
    outcome: Result<Lints, LintsError>,
) -> bool {
    match parsed {
        None => outcome matches Err(LintsError::Parse(ParseError::Syntax(_))),
        Some(document) => match lints_of(Some(file), document) {
            Ok(lints) => outcome matches Ok(got) && got@ == lints,
            Err(severity) => outcome matches Err(LintsError::Parse(ParseError::Shape(at))) && at
                == severity,
        },
    }
}

/// The keys of a configuration file with their lists, in the order in which
/// they are written: deny, allow, warn.
pub open spec fn lists_of(lints: LintsView) -> ListsView {
    seq![
        (Severity::Deny.key_text(), lints.deny),
        (Severity::Allow.key_text(), lints.allow),
        (Severity::Warn.key_text(), lints.warn),
    ]
}

/// `after` is `before` with each list sorted: the same file, and in each
/// list the same names as often, in ascending order.
pub open spec fn is_sorted_form(after: LintsView, before: LintsView) -> bool {
    &&& after.file == before.file
    &&& is_sort_of(after.deny, before.deny)
    &&& is_sort_of(after.allow, before.allow)
    &&& is_sort_of(after.warn, before.warn)
}

/// The text of the configuration file of `lints`: the comment, then the TOML
/// document of the three lists; `None` where the serializer fails.
pub open spec fn file_text(lints: LintsView) -> Option<Seq<char>> {
    match toml_pretty(lists_of(lints)) {
        Some(body) => Some(COMMENT@ + body),
        None => None,
    }
}

/// The flags of the three lists: the denied lints first, then the warned,
/// then the allowed, each list in its own order.
pub open spec fn all_flags(lints: LintsView) -> Seq<Seq<char>> {
    flag_pairs(Severity::Deny.flag_text(), lints.deny) + flag_pairs(
        Severity::Warn.flag_text(),
        lints.warn,
    ) + flag_pairs(Severity::Allow.flag_text(), lints.allow)
}

/// The command line that runs the linter: the program and its subcommand,
/// the caller's arguments as they are, the separator, and the flags of the
/// configuration.
pub open spec fn command_line(lints: LintsView, args: Seq<Seq<char>>) -> Seq<Seq<char>> {
    seq![PROGRAM@, LINTER@] + args + seq![SEPARATOR@] + all_flags(lints)
}

/// Puts clones of the strings of `more` behind those of `out`.
fn append_all(out: &mut Vec<String>, more: &[String])
    ensures
        final(out).deep_view() == old(out).deep_view() + more.deep_view(),
{
    let mut i: usize = 0;
    proof {
        assert(out.deep_view() =~= old(out).deep_view() + more.deep_view().take(0));
    }
    while i < more.len()
        invariant
            i <= more.len(),
            out.deep_view() == old(out).deep_view() + more.deep_view().take(i as int),
        decreases more.len() - i,
    {
        let ghost before = out.deep_view();
        out.push(more[i].clone());
        proof {
            assert(out.deep_view() =~= before.push(more[i as int]@));
            assert(more.deep_view().take(i + 1) =~= more.deep_view().take(i as int).push(
                more[i as int]@,
            ));
        }
        i += 1;
    }
    proof {
        assert(more.deep_view().take(more.len() as int) =~= more.deep_view());
    }
}

impl Default for Lints {
    /// The configuration without a file and without a lint.
    fn default() -> (lints: Lints)
        ensures
            lints@ == empty_lints(),
    {
        let lints = Lints { file: None, deny: Vec::new(), allow: Vec::new(), warn: Vec::new() };
        proof {
            assert(lints.deny.deep_view() =~= Seq::empty());
            assert(lints.allow.deep_view() =~= Seq::empty());
            assert(lints.warn.deep_view() =~= Seq::empty());
        }
        lints
    }
}

impl Lints {
    /// The configuration that a document holds, bound to `file`.
    ///
    /// A key that is absent gives an empty list, and keys other than the
    /// three are not looked at. The keys are read in the order deny, allow,
    /// warn, and the first that holds something other than a list of strings
    /// is the error.
    pub fn from_document(file: Option<PathBuf>, document: &Document) -> (outcome: Result<
        Lints,
        LintsError,
    >)
        ensures
            match lints_of(file, document.deep_view()) {
                Ok(lints) => outcome matches Ok(got) && got@ == lints,
                Err(severity) => outcome matches Err(LintsError::Parse(ParseError::Shape(at)))
                    && at == severity,
            },
    {
        let deny = match read_names(document, Severity::Deny) {
            Ok(names) => names,
            Err(error) => {
                return Err(LintsError::Parse(error));
            },
        };
        let allow = match read_names(document, Severity::Allow) {
            Ok(names) => names,
            Err(error) => {
                return Err(LintsError::Parse(error));
            },
        };
        let warn = match read_names(document, Severity::Warn) {
            Ok(names) => names,
            Err(error) => {
                return Err(LintsError::Parse(error));
            },
        };
        Ok(Lints { file, deny, allow, warn })
    }

    /// The configuration that the text `text` of the file `file` holds.
    ///
    /// The text is parsed as TOML. Where the parser rejects it the error is
    /// the parser's; otherwise the result is that of `from_document` for the
    /// document and the file.
    pub fn from_config_with_path(file: PathBuf, text: &str) -> (outcome: Result<
        Lints,
        LintsError,
    >)
        ensures
            loaded(file, toml_document(text@), outcome),
    {
        match parse_table(text) {
            Ok(document) => Lints::from_document(Some(file), &document),
            Err(error) => Err(LintsError::Parse(ParseError::Syntax(error))),
        }
    }

    /// The configuration of a project, given the configuration file that the
    /// walk found and the text read from it, or `None` where it found none.
    ///
    /// Without a file the configuration is the empty one, bound to no file,
    /// and that is no error.
    pub fn from_config(found: Option<(PathBuf, String)>) -> (outcome: Result<Lints, LintsError>)
        ensures
            match found {
                None => outcome matches Ok(got) && got@ == empty_lints(),
                Some((file, text)) => loaded(file, toml_document(text@), outcome),
            },
    {
        match found {
            None => Ok(Lints::default()),
            Some((file, text)) => Lints::from_config_with_path(file, text.as_str()),
        }
    }

    /// Sorts each of the three lists in ascending order. Nothing is merged
    /// and nothing is dropped: a name that stands twice stands twice after.
    pub fn sort(&mut self)
        ensures
            is_sorted_form(final(self)@, old(self)@),
    {
        self.allow = sort_names(&self.allow);
        self.deny = sort_names(&self.deny);
        self.warn = sort_names(&self.warn);
    }

    /// The keys of the configuration file with their lists, in the order in
    /// which they are written.
    pub fn lists(&self) -> (lists: Lists)
        ensures
            lists.deep_view() == lists_of(self@),
    {
        let mut lists: Lists = Vec::new();
        lists.push((Severity::Deny.key().to_owned(), self.deny.clone()));
        lists.push((Severity::Allow.key().to_owned(), self.allow.clone()));
        lists.push((Severity::Warn.key().to_owned(), self.warn.clone()));
        proof {
            assert(lists.deep_view() =~= lists_of(self@));
        }
        lists
    }

    /// The text of a configuration file with the TOML document `body`: the
    /// comment, then the document.
    pub fn with_comment(body: &str) -> (text: String)
        ensures
            text@ == COMMENT@ + body@,
    {
        let mut text = COMMENT.to_owned();
        text.append(body);
        text
    }

    /// Formats the configuration: sorts its lists and gives the text that
    /// its file is to hold from now on.
    ///
    /// A configuration without a file fails with `NoFileAssociated` and stays
    /// as it is. Otherwise the lists are sorted as `sort` sorts them, and the
    /// text is the comment followed by the TOML document of the sorted
    /// lists; where the serializer fails, the error is the serializer's, and
    /// the lists are sorted all the same.
    pub fn fmt(&mut self) -> (written: Result<String, LintsError>)
        ensures
            old(self).file is None ==> *final(self) == *old(self) && (written matches Err(
                LintsError::NoFileAssociated,
            )),
            old(self).file is Some ==> is_sorted_form(final(self)@, old(self)@) && match file_text(
                final(self)@,
            ) {
                Some(text) => written matches Ok(got) && got@ == text,
                None => written matches Err(LintsError::Serialize(_)),
            },
    {
        if self.file.is_none() {
            return Err(LintsError::NoFileAssociated);
        }
        self.sort();
        let lists = self.lists();
        match write_table(&lists) {
            Ok(body) => Ok(Lints::with_comment(body.as_str())),
            Err(error) => Err(LintsError::Serialize(error)),
        }
    }

    /// The flags that make each denied lint an error.
    pub fn deny_flags(&self) -> (flags: Vec<String>)
        ensures
            flags.deep_view() == flag_pairs(Severity::Deny.flag_text(), self@.deny),
    {
        pair_flags(Severity::Deny.flag(), &self.deny)
    }

    /// The flags that make each warned lint a warning.
    pub fn warn_flags(&self) -> (flags: Vec<String>)
        ensures
            flags.deep_view() == flag_pairs(Severity::Warn.flag_text(), self@.warn),
    {
        pair_flags(Severity::Warn.flag(), &self.warn)
    }

    /// The flags that suppress each allowed lint.
    pub fn allow_flags(&self) -> (flags: Vec<String>)
        ensures
            flags.deep_view() == flag_pairs(Severity::Allow.flag_text(), self@.allow),
    {
        pair_flags(Severity::Allow.flag(), &self.allow)
    }

    /// The command line that runs the linter with this configuration.
    ///
    /// The arguments `args` are passed on as they are. The flags of the
    /// configuration stand behind the separator, so that they shadow none of
    /// them.
    pub fn clippy(&self, args: &[String]) -> (line: Vec<String>)
        ensures
            line.deep_view() == command_line(self@, args.deep_view()),
    {
        let mut line: Vec<String> = Vec::new();
        line.push(PROGRAM.to_owned());
        line.push(LINTER.to_owned());
        assert(line.deep_view() =~= seq![PROGRAM@, LINTER@]);
        append_all(&mut line, args);
        let ghost front = line.deep_view();
        line.push(SEPARATOR.to_owned());
        assert(line.deep_view() =~= front + seq![SEPARATOR@]);
        let deny = self.deny_flags();
        append_all(&mut line, deny.as_slice());
        let warn = self.warn_flags();
        append_all(&mut line, warn.as_slice());
        let allow = self.allow_flags();
        append_all(&mut line, allow.as_slice());
        proof {
            assert(line.deep_view() =~= command_line(self@, args.deep_view()));
        }
        line
    }
}

} // verus!

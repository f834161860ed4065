//! The run over a project: every file is parsed, its declarations are held
//! to the four conventions, and the findings are gathered in one report.
use vstd::prelude::*;
use crate::constants::{self, constant_findings};
use crate::declarations::{declarations, extract};
use crate::files::{classify, role_of, FileRole, Root};
use crate::parse::{parse_source, parsed_tree};
use crate::report::{rendering, views, InvalidItem, InvalidItemView, Report};
use crate::scripts::{self, script_findings};
use crate::src_names_internal::{self, internal_findings};
use crate::test_names::{self, test_findings};
use crate::tree::{ItemView, SourceTree};

verus! {

/// A file of the project: the root it was found under, its path and its
/// text.
#[derive(Clone, Debug, PartialEq, Eq)]
pub struct SourceFile {
    pub root: Root,
    pub path: String,
    pub content: String,
}

pub struct SourceFileView {
    pub root: Root,
    pub path: Seq<char>,
    pub content: Seq<char>,
}

impl View for SourceFile {
    type V = SourceFileView;

    open spec fn view(&self) -> SourceFileView {
        SourceFileView { root: self.root, path: self.path@, content: self.content@ }
    }
}

/// What each file of a list is.
pub open spec fn file_views(files: Seq<SourceFile>) -> Seq<SourceFileView> {
    files.map_values(|file: SourceFile| file@)
}

/// Why a run failed.
#[derive(Clone, Debug, PartialEq, Eq)]
pub enum CheckError {
    /// The parser rejected the file at this path.
    Parse { file: String },
    /// Conventions are broken; `details` is the report in words.
    InvalidNames { details: String },
    /// The conventions or the formatting, or both, are not in order.
    Failed,
}

impl CheckError {
    /// The error in words.
    pub fn message(&self) -> (text: String)
        ensures
            text@ == match self {
                CheckError::Parse { .. } => "Parsing failed"@,
                CheckError::InvalidNames { .. } => "Invalid names found"@,
                CheckError::Failed => "One or more checks failed, review above output"@,
            },
    {
        match self {
            CheckError::Parse { .. } => String::from_str("Parsing failed"),
            CheckError::InvalidNames { .. } => String::from_str("Invalid names found"),
            CheckError::Failed => String::from_str(
                "One or more checks failed, review above output",
            ),
        }
    }
}

/// What the conventions find in a file with this role, path, text and tree:
/// the findings on test names, then those on internal names, on constants
/// and on the script's interface.
pub open spec fn file_findings(
    role: FileRole,
    file: Seq<char>,
    content: Seq<char>,
    tree: Seq<ItemView>,
) -> Seq<InvalidItemView> {
    test_findings(role, file, content, declarations(tree)) + internal_findings(
        role,
        file,
        content,
        declarations(tree),
    ) + constant_findings(file, content, declarations(tree)) + script_findings(
        role,
        file,
        declarations(tree),
    )
}

/// What the conventions find in a file, if the parser accepts its text.
pub open spec fn source_findings(file: SourceFileView) -> Option<Seq<InvalidItemView>> {
    match parsed_tree(file.content) {
        Some(tree) => Some(
            file_findings(role_of(file.root, file.path), file.path, file.content, tree),
        ),
        None => None,
    }
}

/// The path of the first file that the parser rejects, if there is one.
pub open spec fn first_rejected(files: Seq<SourceFileView>) -> Option<Seq<char>>
    decreases files.len(),
{
    if files.len() == 0 {
        None
    } else {
        match first_rejected(files.drop_last()) {
            Some(path) => Some(path),
            None => if source_findings(files.last()) is None {
                Some(files.last().path)
            } else {
                None
            },
        }
    }
}

/// What the conventions find in the files that the parser accepts, file by
/// file in their order.
pub open spec fn all_findings(files: Seq<SourceFileView>) -> Seq<InvalidItemView>
    decreases files.len(),
{
    if files.len() == 0 {
        Seq::empty()
    } else {
        all_findings(files.drop_last()) + match source_findings(files.last()) {
            Some(found) => found,
            None => Seq::empty(),
        }
    }
}

/// Holds a parsed file to the four conventions.
pub fn check_tree(role: FileRole, file: &str, content: &str, tree: &SourceTree) -> (found: Vec<
    InvalidItem,
>)
    ensures
        views(found@) == file_findings(role, file@, content@, tree@),
{
    let declared = extract(tree);
    let mut found = test_names::validate_declarations(role, file, content, &declared);
    let ghost tests = found@;
    let mut internal = src_names_internal::validate(role, file, content, &declared);
    let ghost internals = internal@;
    let mut fixed = constants::validate(file, content, &declared);
    let ghost constant = fixed@;
    let mut script = scripts::validate(role, file, &declared);
    let ghost interface = script@;
    found.append(&mut internal);
    found.append(&mut fixed);
    found.append(&mut script);
    assert(views(found@) =~= views(tests) + views(internals) + views(constant) + views(interface));
    found
}

/// Parses a file, holds it to the four conventions and adds what they find
/// to the report. Where the parser rejects the file, the report stays as it
/// is and the answer is `false`.
pub fn check_file(report: &mut Report, file: &SourceFile) -> (parsed: bool)
    ensures
        match source_findings(file@) {
            Some(found) => parsed && final(report)@ == old(report)@ + found,
            None => !parsed && final(report)@ == old(report)@,
        },
{
    match parse_source(file.content.as_str()) {
        Some(tree) => {
            let role = classify(file.root, file.path.as_str());
            let found = check_tree(role, file.path.as_str(), file.content.as_str(), &tree);
            report.add_items(found);
            true
        },
        None => false,
    }
}

/// Holds the files of a project to the conventions, in their order. The
/// run stops at the first file that the parser rejects, with its path.
pub fn validate(files: &Vec<SourceFile>) -> (results: Result<Report, CheckError>)
    ensures
        match first_rejected(file_views(files@)) {
            Some(path) => results matches Err(CheckError::Parse { file }) && file@ == path,
            None => results matches Ok(report) && report@ == all_findings(file_views(files@)),
        },
{
    let ghost all = file_views(files@);
    let mut report = Report::default();
    let mut i: usize = 0;
    assert(all.take(0) =~= Seq::empty());
    while i < files.len()
        invariant
            i <= files.len(),
            all == file_views(files@),
            first_rejected(all.take(i as int)) is None,
            report@ == all_findings(all.take(i as int)),
        decreases files.len() - i,
    {
        proof {
            assert(all.take(i + 1).drop_last() =~= all.take(i as int));
            assert(all.take(i + 1).last() == files@[i as int]@);
        }
        if !check_file(&mut report, &files[i]) {
            proof {
                lemma_first_rejected_stays(all, i + 1);
            }
            return Err(CheckError::Parse { file: files[i].path.clone() });
        }
        i = i + 1;
    }
    assert(all.take(i as int) =~= all);
    Ok(report)
}

/// A file that is the first to be rejected among those before some point is
/// the first to be rejected among all.
pub proof fn lemma_first_rejected_stays(files: Seq<SourceFileView>, upto: int)
    requires
        0 <= upto <= files.len(),
        first_rejected(files.take(upto)) is Some,
    ensures
        first_rejected(files) == first_rejected(files.take(upto)),
    decreases files.len() - upto,
{
    if upto < files.len() {
        assert(files.take(upto + 1).drop_last() =~= files.take(upto));
        lemma_first_rejected_stays(files, upto + 1);
    } else {
        assert(files.take(upto) =~= files);
    }
}

/// Holds the files of a project to the conventions and says whether they
/// are kept: an error with the path of the first file that the parser
/// rejects, else an error with the report in words where anything was
/// found, else success.
pub fn validate_conventions(files: &Vec<SourceFile>) -> (verdict: Result<(), CheckError>)
    ensures
        match first_rejected(file_views(files@)) {
            Some(path) => verdict matches Err(CheckError::Parse { file }) && file@ == path,
            None => if all_findings(file_views(files@)).len() == 0 {
                verdict is Ok
            } else {
                verdict matches Err(CheckError::InvalidNames { details }) && details@ == rendering(
                    all_findings(file_views(files@)),
                )
            },
        },
{
    match validate(files) {
        Ok(results) => {
            if results.is_valid() {
                Ok(())
            } else {
                Err(CheckError::InvalidNames { details: results.render() })
            }
        },
        Err(error) => Err(error),
    }
}

/// The verdict of a run: it passes when both the conventions and the
/// formatting are in order, and fails otherwise.
pub fn run(valid_names: bool, valid_fmt: bool) -> (verdict: Result<(), CheckError>)
    ensures
        verdict is Ok <==> valid_names && valid_fmt,
        verdict is Err ==> verdict == Err::<(), CheckError>(CheckError::Failed),
{
    if valid_names && valid_fmt {
        Ok(())
    } else {
        Err(CheckError::Failed)
    }
}

} // verus!

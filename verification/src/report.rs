//! Findings, and the report that gathers them.
use vstd::prelude::*;
use crate::text::{decimal, decimal_string};

verus! {

/// The convention that a finding breaks.
#[derive(Clone, Copy, Debug, PartialEq, Eq, Structural)]
pub enum Validator {
    /// The name of a constant or an immutable.
    Constant,
    /// The interface of an executable script.
    Script,
    /// The name of an internal or private member of a source contract.
    Src,
    /// The name of a test function.
    Test,
}

/// What a finding says: the convention, the file, the name or message, and
/// the line (0 where the finding is about the file as a whole).
pub struct InvalidItemView {
    pub kind: Validator,
    pub file: Seq<char>,
    pub text: Seq<char>,
    pub line: nat,
}

/// One breach of a convention.
#[derive(Clone, Debug, PartialEq, Eq)]
pub struct InvalidItem {
    pub kind: Validator,
    pub file: String,
    pub text: String,
    pub line: usize,
}

impl View for InvalidItem {
    type V = InvalidItemView;

    open spec fn view(&self) -> InvalidItemView {
        InvalidItemView {
            kind: self.kind,
            file: self.file@,
            text: self.text@,
            line: self.line as nat,
        }
    }
}

/// The line that describes a finding.
pub open spec fn description_of(item: InvalidItemView) -> Seq<char> {
    match item.kind {
        Validator::Test => "Invalid test name in "@ + item.file + " on line "@ + decimal(item.line)
            + ": "@ + item.text,
        Validator::Constant => "Invalid constant or immutable name in "@ + item.file
            + " on line "@ + decimal(item.line) + ": "@ + item.text,
        Validator::Src => "Invalid src method name in "@ + item.file + " on line "@ + decimal(
            item.line,
        ) + ": "@ + item.text,
        Validator::Script => "Invalid script interface in "@ + item.file + ": "@ + item.text,
    }
}

impl InvalidItem {
    pub fn new(kind: Validator, file: String, text: String, line: usize) -> (item: Self)
        ensures
            item@ == (InvalidItemView { kind, file: file@, text: text@, line: line as nat }),
    {
        InvalidItem { kind, file, text, line }
    }

    /// The finding in words, on one line.
    pub fn description(&self) -> (text: String)
        ensures
            text@ == description_of(self@),
    {
        let mut text = match self.kind {
            Validator::Test => String::from_str("Invalid test name in "),
            Validator::Constant => String::from_str("Invalid constant or immutable name in "),
            Validator::Src => String::from_str("Invalid src method name in "),
            Validator::Script => String::from_str("Invalid script interface in "),
        };
        text.append(self.file.as_str());
        match self.kind {
            Validator::Script => {},
            _ => {
                text.append(" on line ");
                let line = decimal_string(self.line);
                text.append(line.as_str());
            },
        }
        text.append(": ");
        text.append(self.text.as_str());
        text
    }
}

/// What a finding that may be missing says.
pub open spec fn finding_view(finding: Option<InvalidItem>) -> Option<InvalidItemView> {
    match finding {
        Some(item) => Some(item@),
        None => None,
    }
}

/// What each finding of a list says.
pub open spec fn views(items: Seq<InvalidItem>) -> Seq<InvalidItemView> {
    items.map_values(|item: InvalidItem| item@)
}

/// The findings of one kind, in the order in which they were added.
pub open spec fn group(items: Seq<InvalidItemView>, kind: Validator) -> Seq<InvalidItemView> {
    items.filter(|item: InvalidItemView| item.kind == kind)
}

/// The findings of a list in words, one line each.
pub open spec fn lines_of(items: Seq<InvalidItemView>) -> Seq<char>
    decreases items.len(),
{
    if items.len() == 0 {
        Seq::empty()
    } else {
        lines_of(items.drop_last()) + description_of(items.last()) + seq!['\n']
    }
}

/// A report in words: the findings on test names, then those on constants,
/// on internal names and on scripts, each group in the order of its arrival.
pub open spec fn rendering(items: Seq<InvalidItemView>) -> Seq<char> {
    lines_of(group(items, Validator::Test)) + lines_of(group(items, Validator::Constant))
        + lines_of(group(items, Validator::Src)) + lines_of(group(items, Validator::Script))
}

/// Every finding belongs to exactly one group: the four groups together are
/// as many as the findings.
pub proof fn lemma_groups_are_exhaustive(items: Seq<InvalidItemView>)
    ensures
        group(items, Validator::Test).len() + group(items, Validator::Constant).len() + group(
            items,
            Validator::Src,
        ).len() + group(items, Validator::Script).len() == items.len(),
    decreases items.len(),
{
    reveal(Seq::filter);
    if items.len() > 0 {
        lemma_groups_are_exhaustive(items.drop_last());
    }
}

/// No finding at all is the same as no finding in any group.
pub proof fn lemma_empty_means_empty_groups(items: Seq<InvalidItemView>)
    ensures
        items.len() == 0 <==> group(items, Validator::Test).len() + group(
            items,
            Validator::Constant,
        ).len() + group(items, Validator::Src).len() + group(items, Validator::Script).len() == 0,
{
    lemma_groups_are_exhaustive(items);
}

/// A group grows by a finding exactly when the finding is of its kind.
pub proof fn lemma_group_push(items: Seq<InvalidItemView>, item: InvalidItemView, kind: Validator)
    ensures
        group(items.push(item), kind) == if item.kind == kind {
            group(items, kind).push(item)
        } else {
            group(items, kind)
        },
{
    reveal(Seq::filter);
    assert(items.push(item).drop_last() =~= items);
}

/// The group of two lists in a row is the group of the first, then the
/// group of the second: findings added later never come before earlier ones
/// of their kind.
pub proof fn lemma_group_add(
    first: Seq<InvalidItemView>,
    second: Seq<InvalidItemView>,
    kind: Validator,
)
    ensures
        group(first + second, kind) == group(first, kind) + group(second, kind),
{
    Seq::filter_distributes_over_add(first, second, |item: InvalidItemView| item.kind == kind);
}

/// The findings of a run, in the order in which the rules reported them.
pub struct Report {
    invalid_items: Vec<InvalidItem>,
}

impl View for Report {
    type V = Seq<InvalidItemView>;

    closed spec fn view(&self) -> Seq<InvalidItemView> {
        views(self.invalid_items@)
    }
}

impl Default for Report {
    fn default() -> (report: Self)
        ensures
            report@ == Seq::<InvalidItemView>::empty(),
    {
        let report = Report { invalid_items: Vec::new() };
        assert(report@ =~= Seq::<InvalidItemView>::empty());
        report
    }
}

impl Report {
    /// Adds one finding behind those already there.
    pub fn add_item(&mut self, item: InvalidItem)
        ensures
            final(self)@ == old(self)@.push(item@),
    {
        self.invalid_items.push(item);
        assert(self@ =~= old(self)@.push(item@));
    }

    /// Adds findings, in their order, behind those already there.
    pub fn add_items(&mut self, items: Vec<InvalidItem>)
        ensures
            final(self)@ == old(self)@ + views(items@),
    {
        let ghost given = items@;
        let mut rest = items;
        self.invalid_items.append(&mut rest);
        assert(self@ =~= old(self)@ + views(given));
    }

    /// Whether the run found nothing: no finding in any group.
    pub fn is_valid(&self) -> (valid: bool)
        ensures
            valid == (self@.len() == 0),
            valid == (group(self@, Validator::Test).len() + group(self@, Validator::Constant).len()
                + group(self@, Validator::Src).len() + group(self@, Validator::Script).len() == 0),
    {
        proof {
            lemma_empty_means_empty_groups(self@);
        }
        self.invalid_items.len() == 0
    }

    /// The findings, in the order in which they were added.
    pub fn items(&self) -> (items: &Vec<InvalidItem>)
        ensures
            views(items@) == self@,
    {
        &self.invalid_items
    }

    /// The number of findings of one kind.
    pub fn count(&self, kind: Validator) -> (count: usize)
        ensures
            count == group(self@, kind).len(),
    {
        let mut count: usize = 0;
        let mut i: usize = 0;
        while i < self.invalid_items.len()
            invariant
                i <= self.invalid_items.len(),
                count == group(views(self.invalid_items@.take(i as int)), kind).len(),
                count <= i,
            decreases self.invalid_items.len() - i,
        {
            proof {
                lemma_views_take_next(self.invalid_items@, i as int);
                lemma_group_push(
                    views(self.invalid_items@.take(i as int)),
                    self.invalid_items@[i as int]@,
                    kind,
                );
            }
            if self.invalid_items[i].kind == kind {
                count = count + 1;
            }
            i = i + 1;
        }
        assert(self.invalid_items@.take(i as int) =~= self.invalid_items@);
        count
    }

    /// The report in words, one finding a line, group by group.
    pub fn render(&self) -> (text: String)
        ensures
            text@ == rendering(self@),
    {
        let mut text = String::new();
        self.render_group(&mut text, Validator::Test);
        self.render_group(&mut text, Validator::Constant);
        self.render_group(&mut text, Validator::Src);
        self.render_group(&mut text, Validator::Script);
        assert(text@ =~= rendering(self@));
        text
    }

    fn render_group(&self, text: &mut String, kind: Validator)
        ensures
            final(text)@ == old(text)@ + lines_of(group(self@, kind)),
    {
        let mut i: usize = 0;
        while i < self.invalid_items.len()
            invariant
                i <= self.invalid_items.len(),
                text@ == old(text)@ + lines_of(
                    group(views(self.invalid_items@.take(i as int)), kind),
                ),
            decreases self.invalid_items.len() - i,
        {
            proof {
                lemma_views_take_next(self.invalid_items@, i as int);
                lemma_group_push(
                    views(self.invalid_items@.take(i as int)),
                    self.invalid_items@[i as int]@,
                    kind,
                );
            }
            if self.invalid_items[i].kind == kind {
                let ghost before = group(views(self.invalid_items@.take(i as int)), kind);
                let line = self.invalid_items[i].description();
                text.append(line.as_str());
                text.append("\n");
                proof {
                    reveal_strlit("\n");
                    let item = self.invalid_items@[i as int]@;
                    assert(before.push(item).drop_last() =~= before);
                    assert("\n"@ =~= seq!['\n']);
                    assert(text@ =~= old(text)@ + lines_of(before.push(item)));
                }
            }
            i = i + 1;
        }
        assert(self.invalid_items@.take(i as int) =~= self.invalid_items@);
    }
}

/// The findings up to and with the one at `i` are those before it and it.
pub proof fn lemma_views_take_next(items: Seq<InvalidItem>, i: int)
    requires
        0 <= i < items.len(),
    ensures
        views(items.take(i + 1)) == views(items.take(i)).push(items[i]@),
{
    assert(views(items.take(i + 1)) =~= views(items.take(i)).push(items[i]@));
}

} // verus!

//! What the library asks its caller to run, and what the caller reports back.
//!
//! The library never starts a process. It decides which program is to run,
//! with which arguments, environment and input, and hands that decision out
//! as an [`Invocation`]; the caller runs it and answers with an [`Outcome`].

use vstd::prelude::*;

verus! {

/// One run of an external program.
#[derive(Debug, Clone, PartialEq, Eq)]
pub struct Invocation {
    /// The program to start, looked up as the operating system does.
    pub program: String,
    /// Its arguments, in order.
    pub arguments: Vec<String>,
    /// Variables added to its environment, as pairs of name and value.
    pub environment: Vec<(String, String)>,
    /// Text to write to its standard input, if any.
    pub input: Option<String>,
}

/// One run of an external program, as sequences of characters.
pub ghost struct InvocationView {
    pub program: Seq<char>,
    pub arguments: Seq<Seq<char>>,
    pub environment: Seq<(Seq<char>, Seq<char>)>,
    pub input: Option<Seq<char>>,
}

impl DeepView for Invocation {
    type V = InvocationView;

    open spec fn deep_view(&self) -> InvocationView {
        InvocationView {
            program: self.program@,
            arguments: self.arguments.deep_view(),
            environment: self.environment.deep_view(),
            input: self.input.deep_view(),
        }
    }
}

impl View for Invocation {
    type V = InvocationView;

    open spec fn view(&self) -> InvocationView {
        self.deep_view()
    }
}

/// How a run of an external program ended.
#[derive(Debug, Clone, PartialEq, Eq)]
pub enum Outcome {
    /// The program could not be started.
    NotStarted,
    /// The program ran to its end, and what it wrote to its standard output
    /// is no text.
    Unreadable {
        /// Whether its exit status reports success.
        success: bool,
    },
    /// The program ran to its end.
    Finished {
        /// Whether its exit status reports success.
        success: bool,
        /// What it wrote to its standard output.
        output: String,
    },
}

/// How a run of an external program ended, with what it wrote as a
/// sequence of characters.
pub ghost enum OutcomeView {
    NotStarted,
    Unreadable { success: bool },
    Finished { success: bool, output: Seq<char> },
}

impl DeepView for Outcome {
    type V = OutcomeView;

    open spec fn deep_view(&self) -> OutcomeView {
        match self {
            Outcome::NotStarted => OutcomeView::NotStarted,
            Outcome::Unreadable { success } => OutcomeView::Unreadable { success: *success },
            Outcome::Finished { success, output } => OutcomeView::Finished {
                success: *success,
                output: output@,
            },
        }
    }
}

impl View for Outcome {
    type V = OutcomeView;

    open spec fn view(&self) -> OutcomeView {
        self.deep_view()
    }
}

/// An invocation of `program` with `arguments`, no added environment and no
/// input.
pub open spec fn plain_invocation(program: Seq<char>, arguments: Seq<Seq<char>>) -> InvocationView {
    InvocationView {
        program,
        arguments,
        environment: Seq::<(Seq<char>, Seq<char>)>::empty(),
        input: None::<Seq<char>>,
    }
}

/// Appends a copy of `item` to `list`.
pub fn push_text(list: &mut Vec<String>, item: &str)
    ensures
        final(list).deep_view() == old(list).deep_view().push(item@),
{
    let ghost before = list.deep_view();
    list.push(item.to_owned());
    assert(list.deep_view() =~= before.push(item@));
}

/// Appends the pair of `name` and `value` to `list`.
pub fn push_pair(list: &mut Vec<(String, String)>, name: &str, value: &str)
    ensures
        final(list).deep_view() == old(list).deep_view().push((name@, value@)),
{
    let ghost before = list.deep_view();
    list.push((name.to_owned(), value.to_owned()));
    assert(list.deep_view() =~= before.push((name@, value@)));
}

/// Appends copies of all of `items` to `list`, in order.
pub fn push_texts(list: &mut Vec<String>, items: &Vec<String>)
    ensures
        final(list).deep_view() == old(list).deep_view() + items.deep_view(),
{
    let ghost before = list.deep_view();
    let mut i: usize = 0;
    assert(list.deep_view() =~= before + items.deep_view().take(0));
    while i < items.len()
        invariant
            i <= items.len(),
            list.deep_view() == before + items.deep_view().take(i as int),
        decreases items.len() - i,
    {
        push_text(list, items[i].as_str());
        assert(before + items.deep_view().take(i + 1) =~= (before + items.deep_view().take(
            i as int,
        )).push(items[i as int]@));
        i = i + 1;
    }
    assert(items.deep_view().take(i as int) =~= items.deep_view());
}

/// An invocation of `program` with `arguments`, no added environment and no
/// input.
pub fn invocation(program: &str, arguments: Vec<String>) -> (r: Invocation)
    ensures
        r@ == plain_invocation(program@, arguments.deep_view()),
{
    let r = Invocation {
        program: program.to_owned(),
        arguments,
        environment: Vec::new(),
        input: None,
    };
    assert(r.environment.deep_view() =~= Seq::<(Seq<char>, Seq<char>)>::empty());
    r
}

} // verus!

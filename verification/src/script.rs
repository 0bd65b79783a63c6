//! Script templating: produces the exact text handed to the scripting host.
//!
//! Three fixed template bodies exist: a single-probe body that prints one
//! property value as the sole output line, a command body that runs one
//! expression without capturing a value, and a multi-probe body whose
//! placeholder receives one print statement per requested property, in
//! request order.  Rendering is pure textual substitution; expressions are
//! trusted input from internal call sites and are not escaped or validated.

use vstd::prelude::*;

verus! {

/// A fixed script body, held split at its single placeholder.  Rendering
/// substitutes the caller-supplied expression text between the two halves.
pub struct Template {
    pub before: String,
    pub after: String,
}

impl Template {
    /// Pure textual substitution of the expression into the template.
    pub fn render(&self, text: &str) -> (r: String)
        ensures
            r@ == self.before@ + text@ + self.after@,
    {
        let mut s = self.before.clone();
        s.append(text);
        s.append(self.after.as_str());
        s
    }
}

/// Text of the single-probe body before its placeholder.
pub open spec fn probe_before() -> Seq<char> {
    "$itunes = New-Object -ComObject iTunes.Application\nWrite-Output $itunes."@
}

/// Text of the single-probe body after its placeholder.
pub open spec fn probe_after() -> Seq<char> {
    "\n"@
}

/// The whole script that probes one property expression.
pub open spec fn probe_script(p: Seq<char>) -> Seq<char> {
    probe_before() + p + probe_after()
}

/// Text of the command body before its placeholder.
pub open spec fn command_before() -> Seq<char> {
    "$itunes = New-Object -ComObject iTunes.Application\n$itunes."@
}

/// Text of the command body after its placeholder.
pub open spec fn command_after() -> Seq<char> {
    "\n"@
}

/// The whole script that runs one command expression for effect.
pub open spec fn command_script(p: Seq<char>) -> Seq<char> {
    command_before() + p + command_after()
}

/// Text of the multi-probe body before its placeholder.
pub open spec fn multi_before() -> Seq<char> {
    "$itunes = New-Object -ComObject iTunes.Application\n"@
}

/// Text of the multi-probe body after its placeholder.
pub open spec fn multi_after() -> Seq<char> {
    Seq::<char>::empty()
}

/// One print statement of the multi-probe body, on a line of its own.
pub open spec fn print_statement(p: Seq<char>) -> Seq<char> {
    "Write-Output $itunes."@ + p + "\n"@
}

/// One print statement per property expression, in the order given.
pub open spec fn print_statements(props: Seq<Seq<char>>) -> Seq<char>
    decreases props.len(),
{
    if props.len() == 0 {
        Seq::<char>::empty()
    } else {
        print_statement(props[0]) + print_statements(props.drop_first())
    }
}

/// The whole script that probes a list of property expressions.
pub open spec fn multi_probe_script(props: Seq<Seq<char>>) -> Seq<char> {
    multi_before() + print_statements(props) + multi_after()
}

/// Adding one expression at the end of a batch adds exactly its print
/// statement at the end of the block.
pub proof fn lemma_print_statements_push(props: Seq<Seq<char>>, p: Seq<char>)
    ensures
        print_statements(props.push(p)) == print_statements(props) + print_statement(p),
    decreases props.len(),
{
    if props.len() == 0 {
        assert(props.push(p)[0] == p);
        assert(props.push(p).drop_first() =~= Seq::<Seq<char>>::empty());
        assert(print_statements(Seq::<Seq<char>>::empty()) == Seq::<char>::empty());
        assert(print_statements(props) == Seq::<char>::empty());
        assert(print_statements(props.push(p)) =~= print_statements(props) + print_statement(p));
    } else {
        lemma_print_statements_push(props.drop_first(), p);
        assert(props.push(p)[0] == props[0]);
        assert(props.push(p).drop_first() =~= props.drop_first().push(p));
        assert(print_statement(props[0]) + (print_statements(props.drop_first())
            + print_statement(p)) =~= (print_statement(props[0]) + print_statements(
            props.drop_first(),
        )) + print_statement(p));
    }
}

/// The single-probe template: wraps one expression so that its value is the
/// sole line printed to standard output.
pub fn probe_template() -> (t: Template)
    ensures
        t.before@ == probe_before(),
        t.after@ == probe_after(),
{
    Template {
        before: String::from_str(
            "$itunes = New-Object -ComObject iTunes.Application\nWrite-Output $itunes.",
        ),
        after: String::from_str("\n"),
    }
}

/// The command template: wraps one expression for execution without
/// capturing a value.
pub fn command_template() -> (t: Template)
    ensures
        t.before@ == command_before(),
        t.after@ == command_after(),
{
    Template {
        before: String::from_str("$itunes = New-Object -ComObject iTunes.Application\n$itunes."),
        after: String::from_str("\n"),
    }
}

/// The multi-probe template: its placeholder receives one print statement
/// per requested expression.
pub fn multi_template() -> (t: Template)
    ensures
        t.before@ == multi_before(),
        t.after@ == multi_after(),
{
    Template {
        before: String::from_str("$itunes = New-Object -ComObject iTunes.Application\n"),
        after: String::new(),
    }
}

/// Builds the print-statement block of a multi-probe script: one statement
/// per expression, input order preserved exactly, one statement per line.
pub fn build_print_statements(props: &Vec<&str>) -> (r: String)
    ensures
        r@ == print_statements(props.deep_view()),
{
    let mut lines = String::new();
    let mut i: usize = 0;
    while i < props.len()
        invariant
            0 <= i <= props.len(),
            lines@ == print_statements(props.deep_view().take(i as int)),
        decreases props.len() - i,
    {
        lines.append("Write-Output $itunes.");
        lines.append(props[i]);
        lines.append("\n");
        proof {
            let pv = props.deep_view();
            assert(pv.take(i + 1) =~= pv.take(i as int).push(pv[i as int]));
            lemma_print_statements_push(pv.take(i as int), pv[i as int]);
            assert(pv[i as int] == props@[i as int]@);
        }
        i = i + 1;
    }
    proof {
        assert(props.deep_view().take(props.len() as int) =~= props.deep_view());
    }
    lines
}

} // verus!

//! The header aggregator: builds the virtual input unit, which pulls in each
//! enabled header of the library, in list order.

use crate::text::texts;
use vstd::prelude::*;
use vstd::string::*;

verus! {

broadcast use vstd::seq::group_seq_axioms;

/// The directive that pulls in one header of the library: the header's name
/// below the library's directory, on a line of its own.
pub open spec fn directive(header: Seq<char>) -> Seq<char> {
    "#include <mbedtls/"@ + header + ">\n"@
}

/// The virtual input unit for a list of headers: their directives, one after
/// the other, in list order.
pub open spec fn virtual_unit(headers: Seq<Seq<char>>) -> Seq<char>
    decreases headers.len(),
{
    if headers.len() == 0 {
        Seq::empty()
    } else {
        virtual_unit(headers.drop_last()) + directive(headers.last())
    }
}

/// Builds the directive for one header.
pub fn header_directive(header: &str) -> (line: String)
    ensures
        line@ == directive(header@),
{
    let mut line = String::from_str("#include <mbedtls/");
    line.append(header);
    line.append(">\n");
    line
}

/// Builds the virtual input unit for the enabled headers. An empty list
/// gives an empty unit.
pub fn virtual_input(headers: &Vec<String>) -> (unit: String)
    ensures
        unit@ == virtual_unit(texts(headers@)),
{
    let ghost names = texts(headers@);
    let mut unit = String::new();
    let mut i: usize = 0;
    while i < headers.len()
        invariant
            i <= headers.len(),
            names == texts(headers@),
            unit@ == virtual_unit(names.take(i as int)),
        decreases headers.len() - i,
    {
        assert(names.take(i + 1).drop_last() =~= names.take(i as int));
        assert(names.take(i + 1).last() == headers@[i as int]@);
        let line = header_directive(headers[i].as_str());
        unit.append(line.as_str());
        i += 1;
    }
    assert(names.take(i as int) =~= names);
    unit
}

/// The unit for two lists, one after the other, is the unit of the first
/// followed by the unit of the second: each header gives one directive, and
/// the directives stand in list order.
pub proof fn lemma_virtual_unit_concat(first: Seq<Seq<char>>, second: Seq<Seq<char>>)
    ensures
        virtual_unit(first + second) == virtual_unit(first) + virtual_unit(second),
    decreases second.len(),
{
    if second.len() == 0 {
        assert(first + second =~= first);
    } else {
        lemma_virtual_unit_concat(first, second.drop_last());
        assert((first + second).drop_last() =~= first + second.drop_last());
        assert((first + second).last() == second.last());
    }
}

/// The unit of a single header is its directive.
pub proof fn lemma_virtual_unit_single(header: Seq<char>)
    ensures
        virtual_unit(seq![header]) == directive(header),
{
    assert(seq![header].drop_last() =~= Seq::<Seq<char>>::empty());
    assert(virtual_unit(seq![header].drop_last()) =~= Seq::<char>::empty());
}

/// For headers `a`, `b`, `c` the unit holds three directives, in exactly that
/// order, and nothing else.
pub proof fn lemma_virtual_unit_three(a: Seq<char>, b: Seq<char>, c: Seq<char>)
    ensures
        virtual_unit(seq![a, b, c]) == directive(a) + directive(b) + directive(c),
{
    lemma_virtual_unit_single(a);
    lemma_virtual_unit_single(b);
    lemma_virtual_unit_single(c);
    lemma_virtual_unit_concat(seq![a], seq![b]);
    lemma_virtual_unit_concat(seq![a, b], seq![c]);
    assert(seq![a] + seq![b] =~= seq![a, b]);
    assert(seq![a, b] + seq![c] =~= seq![a, b, c]);
}

} // verus!

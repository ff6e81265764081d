//! The names of the HTTP methods that routes are set up for, and the lists
//! of them that `Allow` headers carry.

use http::Method;
use vstd::prelude::*;
use vstd::string::StringExecFns;

use crate::bindings::http_types::{header_char_ok, header_value_ok, method_as_str, method_text};

verus! {

/// The name of one of the nine standard methods that routes are set up
/// for.
pub open spec fn standard_name(t: Seq<char>) -> bool {
    ||| t == "CONNECT"@
    ||| t == "DELETE"@
    ||| t == "GET"@
    ||| t == "HEAD"@
    ||| t == "OPTIONS"@
    ||| t == "PATCH"@
    ||| t == "POST"@
    ||| t == "PUT"@
    ||| t == "TRACE"@
}

/// Method names separated by `", "`.
pub open spec fn join_methods(s: Seq<Seq<char>>) -> Seq<char>
    decreases s.len(),
{
    if s.len() == 0 {
        Seq::empty()
    } else if s.len() == 1 {
        s[0]
    } else {
        join_methods(s.drop_last()) + ", "@ + s.last()
    }
}

/// The names of a list of methods.
pub open spec fn method_names(s: Seq<Method>) -> Seq<Seq<char>> {
    s.map_values(|m: Method| method_text(m))
}

/// Every character of a standard method name may stand in a header value.
pub proof fn lemma_standard_name_header_ok(t: Seq<char>)
    requires
        standard_name(t),
    ensures
        header_value_ok(t),
{
    reveal_strlit("CONNECT");
    reveal_strlit("DELETE");
    reveal_strlit("GET");
    reveal_strlit("HEAD");
    reveal_strlit("OPTIONS");
    reveal_strlit("PATCH");
    reveal_strlit("POST");
    reveal_strlit("PUT");
    reveal_strlit("TRACE");
}

/// Texts that may stand in a header value still may when put together.
pub proof fn lemma_header_ok_concat(a: Seq<char>, b: Seq<char>)
    requires
        header_value_ok(a),
        header_value_ok(b),
    ensures
        header_value_ok(a + b),
{
    assert forall|i: int| 0 <= i < (a + b).len() implies header_char_ok(#[trigger] (a + b)[i]) by {
        if i < a.len() {
            assert((a + b)[i] == a[i]);
        } else {
            assert((a + b)[i] == b[i - a.len()]);
        }
    }
}

/// A list of standard method names may stand in an `Allow` header value.
pub proof fn lemma_join_methods_header_ok(s: Seq<Seq<char>>)
    requires
        forall|i: int| 0 <= i < s.len() ==> standard_name(#[trigger] s[i]),
    ensures
        header_value_ok(join_methods(s)),
    decreases s.len(),
{
    if s.len() == 1 {
        lemma_standard_name_header_ok(s[0]);
    } else if s.len() > 1 {
        let rest = s.drop_last();
        assert forall|i: int| 0 <= i < rest.len() implies standard_name(#[trigger] rest[i]) by {
            assert(rest[i] == s[i]);
        }
        lemma_join_methods_header_ok(rest);
        lemma_standard_name_header_ok(s.last());
        reveal_strlit(", ");
        lemma_header_ok_concat(join_methods(rest), ", "@);
        lemma_header_ok_concat(join_methods(rest) + ", "@, s.last());
    }
}

/// Appending one more name to a list extends its text by `", "` and the
/// name, or starts it.
pub proof fn lemma_join_methods_push(s: Seq<Seq<char>>, t: Seq<char>)
    ensures
        join_methods(s.push(t)) == if s.len() == 0 {
            t
        } else {
            join_methods(s) + ", "@ + t
        },
{
    assert(s.push(t).drop_last() =~= s);
}

/// Appends `", "` and the name of a method to a list of names.
pub fn push_method(list: &mut String, m: &Method)
    ensures
        final(list)@ == old(list)@ + ", "@ + method_text(*m),
{
    list.append(", ");
    list.append(method_as_str(m));
}

/// The names of the methods, separated by `", "`.
pub fn join_method_names(methods: &Vec<Method>) -> (r: String)
    ensures
        r@ == join_methods(method_names(methods@)),
{
    let ghost names = method_names(methods@);
    let mut out = String::new();
    let mut i: usize = 0;
    while i < methods.len()
        invariant
            i <= methods@.len(),
            names == method_names(methods@),
            out@ == join_methods(names.take(i as int)),
        decreases methods@.len() - i,
    {
        let m = &methods[i];
        proof {
            lemma_join_methods_push(names.take(i as int), method_text(*m));
            assert(names.take(i + 1) =~= names.take(i as int).push(method_text(*m)));
        }
        if i == 0 {
            out = String::from_str(method_as_str(m));
        } else {
            push_method(&mut out, m);
        }
        i += 1;
    }
    assert(names.take(i as int) =~= names);
    out
}

} // verus!

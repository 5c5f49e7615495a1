//! The class stub generated for a sheet.
use vstd::prelude::*;
use vstd::string::*;

verus! {

/// The shortest of three lengths.
pub open spec fn min3(a: int, b: int, c: int) -> int {
    if a <= b && a <= c {
        a
    } else if b <= c {
        b
    } else {
        c
    }
}

/// Combines three vectors position by position, as far as the shortest goes.
pub fn zip3<A, B, C>(a: Vec<A>, b: Vec<B>, c: Vec<C>) -> (r: Vec<(A, B, C)>)
    ensures
        r@.len() == min3(a@.len() as int, b@.len() as int, c@.len() as int),
        forall|i: int| 0 <= i < r@.len() ==> #[trigger] r@[i] == (a@[i], b@[i], c@[i]),
{
    let ghost (a0, b0, c0) = (a@, b@, c@);
    let n: usize = if a.len() <= b.len() && a.len() <= c.len() {
        a.len()
    } else if b.len() <= c.len() {
        b.len()
    } else {
        c.len()
    };
    let mut a = a;
    let mut b = b;
    let mut c = c;
    a.truncate(n);
    b.truncate(n);
    c.truncate(n);
    // Taken from the back, so `reversed` holds the triples last first.
    let mut reversed: Vec<(A, B, C)> = Vec::new();
    while a.len() > 0
        invariant
            a@.len() == b@.len() && b@.len() == c@.len(),
            a@.len() + reversed@.len() == n,
            n == min3(a0.len() as int, b0.len() as int, c0.len() as int),
            forall|i: int| 0 <= i < a@.len() ==> #[trigger] a@[i] == a0[i],
            forall|i: int| 0 <= i < b@.len() ==> #[trigger] b@[i] == b0[i],
            forall|i: int| 0 <= i < c@.len() ==> #[trigger] c@[i] == c0[i],
            forall|k: int| 0 <= k < reversed@.len() ==> #[trigger] reversed@[k] == (
                a0[n - 1 - k],
                b0[n - 1 - k],
                c0[n - 1 - k],
            ),
        decreases a@.len(),
    {
        let x = a.pop().unwrap();
        let y = b.pop().unwrap();
        let z = c.pop().unwrap();
        reversed.push((x, y, z));
    }
    let mut out: Vec<(A, B, C)> = Vec::new();
    while reversed.len() > 0
        invariant
            reversed@.len() + out@.len() == n,
            forall|k: int| 0 <= k < reversed@.len() ==> #[trigger] reversed@[k] == (
                a0[n - 1 - k],
                b0[n - 1 - k],
                c0[n - 1 - k],
            ),
            forall|i: int| 0 <= i < out@.len() ==> #[trigger] out@[i] == (a0[i], b0[i], c0[i]),
        decreases reversed@.len(),
    {
        let t = reversed.pop().unwrap();
        out.push(t);
    }
    out
}

/// The property type for a declared type token: `int` for `"int"`, `string`
/// for everything else.
pub open spec fn property_type(token: Seq<char>) -> Seq<char> {
    if token == "int"@ {
        "int"@
    } else {
        "string"@
    }
}

/// The line that declares one property.
pub open spec fn property_line(name: Seq<char>, token: Seq<char>, category: Seq<char>) -> Seq<char> {
    "    public "@ + property_type(token) + " "@ + name + " { get; set; } // Category: "@ + category
        + "\n"@
}

/// The property lines of the first `k` columns.
pub open spec fn property_lines(
    names: Seq<Seq<char>>,
    types: Seq<Seq<char>>,
    categories: Seq<Seq<char>>,
    k: int,
) -> Seq<char>
    decreases k,
{
    if k <= 0 {
        Seq::empty()
    } else {
        property_lines(names, types, categories, k - 1) + property_line(
            names[k - 1],
            types[k - 1],
            categories[k - 1],
        )
    }
}

/// The class stub of a sheet: one property per column, for as many columns
/// as the shortest of the three header sequences has.
pub open spec fn stub_text(
    sheet_name: Seq<char>,
    names: Seq<Seq<char>>,
    types: Seq<Seq<char>>,
    categories: Seq<Seq<char>>,
) -> Seq<char> {
    "public class "@ + sheet_name + "\n{\n"@ + property_lines(
        names,
        types,
        categories,
        min3(names.len() as int, types.len() as int, categories.len() as int),
    ) + "}\n"@
}

/// The property type for a declared type token.
pub fn cs_type(token: &String) -> (r: &'static str)
    ensures
        r@ == property_type(token@),
{
    let int_token = String::from_str("int");
    if *token == int_token {
        "int"
    } else {
        "string"
    }
}

/// A copy of a vector of strings.
fn copy_strings(v: &Vec<String>) -> (r: Vec<String>)
    ensures
        r@ == v@,
{
    let mut out: Vec<String> = Vec::new();
    let mut i: usize = 0;
    while i < v.len()
        invariant
            i <= v.len(),
            out@.len() == i,
            forall|k: int| 0 <= k < i ==> #[trigger] out@[k] == v@[k],
        decreases v.len() - i,
    {
        out.push(v[i].clone());
        i += 1;
    }
    assert(out@ =~= v@);
    out
}

/// Renders the class stub of a sheet from its column names, declared types
/// and categories.
pub fn class_stub(
    sheet_name: &str,
    column_names: &Vec<String>,
    data_types: &Vec<String>,
    categories: &Vec<String>,
) -> (r: String)
    ensures
        r@ == stub_text(
            sheet_name@,
            column_names.deep_view(),
            data_types.deep_view(),
            categories.deep_view(),
        ),
{
    let ghost names = column_names.deep_view();
    let ghost types = data_types.deep_view();
    let ghost cats = categories.deep_view();
    let columns = zip3(copy_strings(column_names), copy_strings(data_types), copy_strings(categories));
    let mut out = String::from_str("public class ");
    out.append(sheet_name);
    out.append("\n{\n");
    let ghost head = out@;
    let mut i: usize = 0;
    while i < columns.len()
        invariant
            i <= columns@.len(),
            columns@.len() == min3(names.len() as int, types.len() as int, cats.len() as int),
            forall|k: int| 0 <= k < columns@.len() ==> #[trigger] columns@[k] == (
                column_names@[k],
                data_types@[k],
                categories@[k],
            ),
            names == column_names.deep_view(),
            types == data_types.deep_view(),
            cats == categories.deep_view(),
            out@ == head + property_lines(names, types, cats, i as int),
        decreases columns@.len() - i,
    {
        let (name, token, category) = &columns[i];
        out.append("    public ");
        out.append(cs_type(token));
        out.append(" ");
        out.append(name.as_str());
        out.append(" { get; set; } // Category: ");
        out.append(category.as_str());
        out.append("\n");
        i += 1;
        assert(out@ =~= head + property_lines(names, types, cats, i as int));
    }
    out.append("}\n");
    assert(out@ =~= stub_text(sheet_name@, names, types, cats));
    out
}

/// A declared type other than `"int"` becomes a `string` property.
pub proof fn lemma_unknown_type_is_text(token: Seq<char>)
    requires
        token != "int"@,
    ensures
        property_type(token) == "string"@,
{
}

} // verus!

//! Text templates: fixed pieces with a value between each two of them.
use vstd::prelude::*;

verus! {

/// The views of the string slices, in order.
pub open spec fn str_views(v: Seq<&str>) -> Seq<Seq<char>> {
    v.map_values(|s: &str| s@)
}

/// The first piece, then each argument followed by the next piece.
pub open spec fn filled(pieces: Seq<Seq<char>>, args: Seq<Seq<char>>) -> Seq<char>
    recommends
        pieces.len() == args.len() + 1,
    decreases args.len(),
{
    if args.len() == 0 {
        pieces[0]
    } else {
        filled(pieces.drop_last(), args.drop_last()) + args.last() + pieces.last()
    }
}

/// `pieces` filled with `args`, as `format!` fills its `{}` places.
pub fn fill(pieces: &[&str], args: &[&str]) -> (r: String)
    requires
        pieces@.len() == args@.len() + 1,
    ensures
        r@ == filled(str_views(pieces@), str_views(args@)),
{
    let n = args.len();
    let mut r = String::from_str(pieces[0]);
    let ghost ps = str_views(pieces@);
    let ghost xs = str_views(args@);
    assert(ps.take(1).drop_last().len() == 0);
    let mut i: usize = 0;
    while i < n
        invariant
            n == args@.len(),
            pieces@.len() == n + 1,
            ps == str_views(pieces@),
            xs == str_views(args@),
            i <= n,
            r@ == filled(ps.take(i + 1), xs.take(i as int)),
        decreases n - i,
    {
        r.append(args[i]);
        r.append(pieces[i + 1]);
        assert(ps.take(i + 2).drop_last() =~= ps.take(i + 1));
        assert(xs.take(i + 1).drop_last() =~= xs.take(i as int));
        i = i + 1;
    }
    assert(ps.take(n + 1) =~= ps);
    assert(xs.take(n as int) =~= xs);
    r
}

/// A page with a style sheet, a body and a script, in that order.
pub const PAGE: [&'static str; 4] = [
    r#"<!DOCTYPE html>
<html>
<head>
    <style>
        "#,
    r#"
    </style>
</head>
<body>
    "#,
    r#"
    <script>
        "#,
    r#"
    </script>
</body>
</html>"#,
];

} // verus!

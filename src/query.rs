//! The text of a search request: the tag filters joined into the request
//! target, the decimal form of numbers, and the query parameters.

use vstd::prelude::*;

verus! {

/// The character of one decimal digit.
pub open spec fn digit_char(d: nat) -> char {
    if d == 0 {
        '0'
    } else if d == 1 {
        '1'
    } else if d == 2 {
        '2'
    } else if d == 3 {
        '3'
    } else if d == 4 {
        '4'
    } else if d == 5 {
        '5'
    } else if d == 6 {
        '6'
    } else if d == 7 {
        '7'
    } else if d == 8 {
        '8'
    } else {
        '9'
    }
}

/// The decimal digits of `n`, most significant first, without leading zeros.
pub open spec fn decimal(n: nat) -> Seq<char>
    decreases n,
{
    if n < 10 {
        seq![digit_char(n)]
    } else {
        decimal(n / 10).push(digit_char(n % 10))
    }
}

/// The tag filters, in order, with a `+` between each two of them.
pub open spec fn join_plus(tags: Seq<Seq<char>>) -> Seq<char>
    decreases tags.len(),
{
    if tags.len() == 0 {
        Seq::empty()
    } else if tags.len() == 1 {
        tags[0]
    } else {
        join_plus(tags.drop_last()) + seq!['+'] + tags.last()
    }
}

/// The text of each tag filter of a slice.
pub open spec fn tag_texts(tags: Seq<&str>) -> Seq<Seq<char>> {
    tags.map_values(|t: &str| t@)
}

/// The address of the search endpoint, up to the tag filters.
pub open spec fn search_base() -> Seq<char> {
    "https://gelbooru.com/index.php?tags="@
}

/// The target of a search: the endpoint with the tag filters joined into it.
pub open spec fn search_target(tags: Seq<Seq<char>>) -> Seq<char> {
    search_base() + join_plus(tags)
}

/// The parameters that select the post index of the API, in the JSON
/// format, and then the credentials, where there are any.
pub open spec fn base_query(api_page: Seq<char>, auth: Option<(Seq<char>, usize)>) -> Seq<
    (Seq<char>, Seq<char>),
> {
    seq![
        ("page"@, api_page),
        ("s"@, "post"@),
        ("q"@, "index"@),
        ("json"@, "1"@),
    ] + match auth {
        Some((key, user_id)) => seq![("api_key"@, key), ("user_id"@, decimal(user_id as nat))],
        None => Seq::empty(),
    }
}

/// All the query parameters of a search for one page of `limit` posts.
pub open spec fn search_query(auth: Option<(Seq<char>, usize)>, page: usize, limit: usize) -> Seq<
    (Seq<char>, Seq<char>),
> {
    base_query("dapi"@, auth) + seq![
        ("pid"@, decimal(page as nat)),
        ("limit"@, decimal(limit as nat)),
    ]
}

/// Whether a query parameter of the name `name` stands in `query`.
pub open spec fn has_param(query: Seq<(Seq<char>, Seq<char>)>, name: Seq<char>) -> bool {
    exists|i: int| 0 <= i < query.len() && #[trigger] query[i].0 == name
}

/// Two tag filters stand in the search target exactly as given, with one
/// `+` between them, whatever characters (a `+`, a space, `>`, `=`) they hold.
pub proof fn lemma_tags_embedded_verbatim(a: Seq<char>, b: Seq<char>)
    ensures
        search_target(seq![a, b]) == search_base() + a + seq!['+'] + b,
        search_target(seq![a]) == search_base() + a,
{
    assert(seq![a, b].drop_last() =~= seq![a]);
    assert(join_plus(seq![a]) == a);
    assert(join_plus(seq![a, b]) == a + seq!['+'] + b);
    assert(search_base() + (a + seq!['+'] + b) =~= search_base() + a + seq!['+'] + b);
}

/// One-character string of a decimal digit.
fn digit_str(d: usize) -> (r: &'static str)
    requires
        d < 10,
    ensures
        r@ == seq![digit_char(d as nat)],
{
    proof {
        reveal_strlit("0");
        reveal_strlit("1");
        reveal_strlit("2");
        reveal_strlit("3");
        reveal_strlit("4");
        reveal_strlit("5");
        reveal_strlit("6");
        reveal_strlit("7");
        reveal_strlit("8");
        reveal_strlit("9");
    }
    if d == 0 {
        "0"
    } else if d == 1 {
        "1"
    } else if d == 2 {
        "2"
    } else if d == 3 {
        "3"
    } else if d == 4 {
        "4"
    } else if d == 5 {
        "5"
    } else if d == 6 {
        "6"
    } else if d == 7 {
        "7"
    } else if d == 8 {
        "8"
    } else {
        "9"
    }
}

/// The decimal form of `n`, as a query parameter carries it.
pub fn decimal_string(n: usize) -> (r: String)
    ensures
        r@ == decimal(n as nat),
    decreases n,
{
    if n < 10 {
        String::from_str(digit_str(n))
    } else {
        let mut s = decimal_string(n / 10);
        s.append(digit_str(n % 10));
        s
    }
}

/// The tag filters joined with a literal `+`, each one left as it is.
pub fn join_tags(tags: &[&str]) -> (r: String)
    ensures
        r@ == join_plus(tag_texts(tags@)),
{
    let mut out = String::new();
    let mut i: usize = 0;
    proof {
        reveal_strlit("+");
        assert(tag_texts(tags@.subrange(0, 0)) =~= Seq::<Seq<char>>::empty());
    }
    while i < tags.len()
        invariant
            i <= tags@.len(),
            out@ == join_plus(tag_texts(tags@.subrange(0, i as int))),
        decreases tags@.len() - i,
    {
        let ghost before = tag_texts(tags@.subrange(0, i as int));
        let ghost after = tag_texts(tags@.subrange(0, i as int + 1));
        assert(after.drop_last() =~= before);
        assert(after.last() == tags@[i as int]@);
        if i > 0 {
            out.append("+");
        }
        out.append(tags[i]);
        assert(out@ =~= join_plus(after)) by {
            reveal_strlit("+");
            if i == 0 {
                assert(after.len() == 1);
                assert(before.len() == 0);
            }
        }
        i += 1;
    }
    assert(tags@.subrange(0, tags@.len() as int) =~= tags@);
    out
}

} // verus!

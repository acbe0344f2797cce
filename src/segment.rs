use vstd::prelude::*;

verus! {

/// The HTTP verb a request is meant to be sent with.
#[derive(Clone, Copy, Debug, PartialEq, Eq, Structural)]
pub enum MethodType {
    Get,
    Post,
    Put,
    Patch,
    Delete,
}

/// A collection of the remote API.
#[derive(Clone, Copy, Debug, PartialEq, Eq, Structural)]
pub enum CollectionType {
    Posts,
    Comments,
    Albums,
    Photos,
    Todos,
    Users,
}

/// A key that a collection can be filtered by.
#[derive(Clone, Copy, Debug, PartialEq, Eq, Structural)]
pub enum QueryType {
    PostId,
}

pub open spec fn method_verb(m: MethodType) -> Seq<char> {
    match m {
        MethodType::Get => "GET"@,
        MethodType::Post => "POST"@,
        MethodType::Put => "PUT"@,
        MethodType::Patch => "PATCH"@,
        MethodType::Delete => "DELETE"@,
    }
}

/// The path fragment of a collection, with its leading slash.
pub open spec fn collection_path(c: CollectionType) -> Seq<char> {
    match c {
        CollectionType::Posts => "/posts"@,
        CollectionType::Comments => "/comments"@,
        CollectionType::Albums => "/albums"@,
        CollectionType::Photos => "/photos"@,
        CollectionType::Todos => "/todos"@,
        CollectionType::Users => "/users"@,
    }
}

pub open spec fn query_name(q: QueryType) -> Seq<char> {
    match q {
        QueryType::PostId => "postId"@,
    }
}

impl MethodType {
    /// The verb, in capitals.
    pub fn as_str(&self) -> (r: &'static str)
        ensures
            r@ == method_verb(*self),
    {
        match self {
            MethodType::Get => "GET",
            MethodType::Post => "POST",
            MethodType::Put => "PUT",
            MethodType::Patch => "PATCH",
            MethodType::Delete => "DELETE",
        }
    }
}

impl CollectionType {
    /// The path fragment of this collection, such as `/posts`.
    pub fn as_str(&self) -> (r: &'static str)
        ensures
            r@ == collection_path(*self),
    {
        match self {
            CollectionType::Posts => "/posts",
            CollectionType::Comments => "/comments",
            CollectionType::Albums => "/albums",
            CollectionType::Photos => "/photos",
            CollectionType::Todos => "/todos",
            CollectionType::Users => "/users",
        }
    }
}

impl QueryType {
    /// The name of the key in a query string.
    pub fn as_str(&self) -> (r: &'static str)
        ensures
            r@ == query_name(*self),
    {
        match self {
            QueryType::PostId => "postId",
        }
    }
}

/// The character of a decimal digit.
pub open spec fn digit_char(d: nat) -> char {
    (d + 48) as char
}

/// The base-10 digits of a natural number, most significant first, without
/// leading zeros.
pub open spec fn nat_digits(n: nat) -> Seq<char>
    decreases n,
{
    if n < 10 {
        seq![digit_char(n)]
    } else {
        nat_digits(n / 10).push(digit_char(n % 10))
    }
}

/// The base-10 rendering of an integer, with a leading `-` when it is negative.
pub open spec fn decimal(n: int) -> Seq<char> {
    if n < 0 {
        seq!['-'] + nat_digits((-n) as nat)
    } else {
        nat_digits(n as nat)
    }
}

fn digit_str(d: u64) -> (r: &'static str)
    requires
        d < 10,
    ensures
        r@ == seq![digit_char(d as nat)],
{
    proof {
        reveal_strlit("0");
        reveal_strlit("1");
        reveal_strlit("2");
        reveal_strlit("3");
        reveal_strlit("4");
        reveal_strlit("5");
        reveal_strlit("6");
        reveal_strlit("7");
        reveal_strlit("8");
        reveal_strlit("9");
    }
    match d {
        0 => "0",
        1 => "1",
        2 => "2",
        3 => "3",
        4 => "4",
        5 => "5",
        6 => "6",
        7 => "7",
        8 => "8",
        _ => "9",
    }
}

fn append_digits(out: &mut String, n: u64)
    ensures
        final(out)@ == old(out)@ + nat_digits(n as nat),
    decreases n,
{
    if n < 10 {
        out.append(digit_str(n));
    } else {
        append_digits(out, n / 10);
        out.append(digit_str(n % 10));
    }
}

/// Appends the base-10 rendering of `n` to `out`.
pub fn append_decimal(out: &mut String, n: isize)
    ensures
        final(out)@ == old(out)@ + decimal(n as int),
{
    if n < 0 {
        proof {
            reveal_strlit("-");
        }
        out.append("-");
        let magnitude: u64 = (-(n as i128)) as u64;
        append_digits(out, magnitude);
    } else {
        append_digits(out, n as u64);
    }
}

} // verus!

use vstd::prelude::*;

pub use crate::segment::{CollectionType, MethodType, QueryType};
use crate::segment::{append_decimal, collection_path, decimal, method_verb, query_name};
use core::marker::PhantomData;

verus! {

/// The scheme and host that every URL starts with.
pub open spec fn origin() -> Seq<char> {
    "https://jsonplaceholder.typicode.com"@
}

/// One step of a request, as it is kept in the request's custody list.
#[derive(Clone, Copy, Debug, PartialEq, Eq, Structural)]
pub enum Segment {
    Initialized,
    Method(MethodType),
    Resource(CollectionType),
    Id(isize),
    Relation(CollectionType),
    Query(QueryType, isize),
    Build,
}

impl Segment {
    /// What this step contributes to the URL.
    pub open spec fn fragment(self) -> Seq<char> {
        match self {
            Segment::Initialized => Seq::empty(),
            Segment::Method(m) => method_verb(m),
            Segment::Resource(c) => collection_path(c),
            Segment::Id(n) => seq!['/'] + decimal(n as int),
            Segment::Relation(c) => collection_path(c),
            Segment::Query(q, n) => seq!['?'] + query_name(q) + seq!['='] + decimal(n as int),
            Segment::Build => Seq::empty(),
        }
    }

    /// Appends this step's fragment to `out`.
    pub fn append_to(&self, out: &mut String)
        ensures
            final(out)@ == old(out)@ + self.fragment(),
    {
        proof {
            reveal_strlit("/");
            reveal_strlit("?");
            reveal_strlit("=");
        }
        match self {
            Segment::Initialized => {
                assert(old(out)@ + Seq::<char>::empty() == old(out)@);
            },
            Segment::Method(m) => out.append(m.as_str()),
            Segment::Resource(c) => out.append(c.as_str()),
            Segment::Id(n) => {
                out.append("/");
                append_decimal(out, *n);
            },
            Segment::Relation(c) => out.append(c.as_str()),
            Segment::Query(q, n) => {
                out.append("?");
                out.append(q.as_str());
                out.append("=");
                append_decimal(out, *n);
            },
            Segment::Build => {
                assert(old(out)@ + Seq::<char>::empty() == old(out)@);
            },
        }
    }
}

/// The fragments of `segs`, concatenated in order.
pub open spec fn joined(segs: Seq<Segment>) -> Seq<char>
    decreases segs.len(),
{
    if segs.len() == 0 {
        Seq::empty()
    } else {
        joined(segs.drop_last()) + segs.last().fragment()
    }
}

/// The URL that a request with custody list `segs` finalizes to.
pub open spec fn url_of(segs: Seq<Segment>) -> Seq<char> {
    origin() + joined(segs)
}

/// A stage of a request: what the last step was, and so which steps may follow.
pub trait RequestState {
    /// The step that reaching this stage records.
    spec fn segment_spec(&self) -> Segment;

    fn segment(&self) -> (r: Segment)
        ensures
            r == self.segment_spec(),
    ;

    /// The fragment that this stage contributes to the URL.
    fn get_param(&self) -> (r: String)
        ensures
            r@ == self.segment_spec().fragment(),
    ;
}

/// Whether the URL may be finalized from a stage.
pub trait BuildableState {}

/// Marks a stage from which the URL may be finalized.
pub struct Buildable;

/// Marks a stage from which the URL may not be finalized.
pub struct NotBuildable;

impl BuildableState for Buildable {}

impl BuildableState for NotBuildable {}

/// The stage of a fresh request.
pub struct Initialized;

/// The stage after choosing a verb.
pub struct Method(pub MethodType);

/// The stage after choosing a collection.
pub struct Resource(pub CollectionType);

/// The stage after choosing one item of the collection.
pub struct Id(pub isize);

/// The stage after choosing a collection nested under an item.
pub struct Relation(pub CollectionType);

/// The stage after filtering the collection.
pub struct Query(pub QueryType, pub isize);

/// The terminal stage, which holds the finished URL.
pub struct Build(String);

impl RequestState for Initialized {
    open spec fn segment_spec(&self) -> Segment {
        Segment::Initialized
    }

    fn segment(&self) -> (r: Segment) {
        Segment::Initialized
    }

    fn get_param(&self) -> (r: String) {
        String::new()
    }
}

impl RequestState for Method {
    open spec fn segment_spec(&self) -> Segment {
        Segment::Method(self.0)
    }

    fn segment(&self) -> (r: Segment) {
        Segment::Method(self.0)
    }

    fn get_param(&self) -> (r: String) {
        let mut s = String::new();
        self.segment().append_to(&mut s);
        s
    }
}

impl RequestState for Resource {
    open spec fn segment_spec(&self) -> Segment {
        Segment::Resource(self.0)
    }

    fn segment(&self) -> (r: Segment) {
        Segment::Resource(self.0)
    }

    fn get_param(&self) -> (r: String) {
        let mut s = String::new();
        self.segment().append_to(&mut s);
        s
    }
}

impl RequestState for Id {
    open spec fn segment_spec(&self) -> Segment {
        Segment::Id(self.0)
    }

    fn segment(&self) -> (r: Segment) {
        Segment::Id(self.0)
    }

    fn get_param(&self) -> (r: String) {
        let mut s = String::new();
        self.segment().append_to(&mut s);
        s
    }
}

impl RequestState for Relation {
    open spec fn segment_spec(&self) -> Segment {
        Segment::Relation(self.0)
    }

    fn segment(&self) -> (r: Segment) {
        Segment::Relation(self.0)
    }

    fn get_param(&self) -> (r: String) {
        let mut s = String::new();
        self.segment().append_to(&mut s);
        s
    }
}

impl RequestState for Query {
    open spec fn segment_spec(&self) -> Segment {
        Segment::Query(self.0, self.1)
    }

    fn segment(&self) -> (r: Segment) {
        Segment::Query(self.0, self.1)
    }

    fn get_param(&self) -> (r: String) {
        let mut s = String::new();
        self.segment().append_to(&mut s);
        s
    }
}

impl RequestState for Build {
    open spec fn segment_spec(&self) -> Segment {
        Segment::Build
    }

    fn segment(&self) -> (r: Segment) {
        Segment::Build
    }

    fn get_param(&self) -> (r: String) {
        String::new()
    }
}

/// A request to the remote API, at stage `S`, which may be finalized when `B`
/// is `Buildable`.
pub struct Request<S: RequestState, B: BuildableState> {
    method: MethodType,
    custody: Vec<Segment>,
    state: S,
    buildable: PhantomData<B>,
}

impl<S: RequestState, B: BuildableState> Request<S, B> {
    /// The custody list starts with the initial marker and ends with the
    /// current stage's step.
    #[verifier::type_invariant]
    spec fn custody_matches_stage(self) -> bool {
        &&& self.custody@.len() >= 1
        &&& self.custody@[0] == Segment::Initialized
        &&& self.custody@.last() == self.state.segment_spec()
    }

    /// The steps taken so far, in call order.
    pub closed spec fn segments(&self) -> Seq<Segment> {
        self.custody@
    }

    /// The verb the request carries.
    pub closed spec fn method_spec(&self) -> MethodType {
        self.method
    }

    /// The current stage.
    pub closed spec fn stage(&self) -> S {
        self.state
    }

    /// The verb the request carries.
    pub fn method(&self) -> (r: MethodType)
        ensures
            r == self.method_spec(),
    {
        self.method
    }

    fn transition<N: RequestState, NB: BuildableState>(self, next: N, _buildable: NB) -> (r:
        Request<N, NB>)
        ensures
            r.segments() == self.segments().push(next.segment_spec()),
            r.method_spec() == self.method_spec(),
            r.stage() == next,
    {
        proof {
            use_type_invariant(&self);
        }
        let mut custody = self.custody;
        custody.push(next.segment());
        Request { method: self.method, custody, state: next, buildable: PhantomData }
    }
}

impl Request<Initialized, NotBuildable> {
    /// A fresh request that carries `method`.
    pub fn new(method: MethodType) -> (r: Request<Initialized, NotBuildable>)
        ensures
            r.segments() == seq![Segment::Initialized],
            r.method_spec() == method,
    {
        let mut custody: Vec<Segment> = Vec::new();
        custody.push(Segment::Initialized);
        Request { method, custody, state: Initialized, buildable: PhantomData }
    }

    /// Chooses the collection the request is about.
    pub fn resource(self, resource: CollectionType) -> (r: Request<Resource, Buildable>)
        ensures
            r.segments() == self.segments().push(Segment::Resource(resource)),
            r.method_spec() == self.method_spec(),
    {
        self.transition(Resource(resource), Buildable)
    }
}

impl Default for Request<Initialized, NotBuildable> {
    fn default() -> (r: Self)
        ensures
            r.segments() == seq![Segment::Initialized],
            r.method_spec() == MethodType::Get,
    {
        Request::new(MethodType::Get)
    }
}

impl Request<Resource, Buildable> {
    /// Chooses one item of the collection. Excludes `query`.
    pub fn id(self, id: isize) -> (r: Request<Id, Buildable>)
        ensures
            r.segments() == self.segments().push(Segment::Id(id)),
            r.method_spec() == self.method_spec(),
    {
        self.transition(Id(id), Buildable)
    }

    /// Filters the collection by `query` equal to `id`. Excludes `id`.
    pub fn query(self, query: QueryType, id: isize) -> (r: Request<Query, Buildable>)
        ensures
            r.segments() == self.segments().push(Segment::Query(query, id)),
            r.method_spec() == self.method_spec(),
    {
        self.transition(Query(query, id), Buildable)
    }
}

impl Request<Id, Buildable> {
    /// Chooses a collection nested under the chosen item.
    pub fn relation(self, relation: CollectionType) -> (r: Request<Relation, Buildable>)
        ensures
            r.segments() == self.segments().push(Segment::Relation(relation)),
            r.method_spec() == self.method_spec(),
    {
        self.transition(Relation(relation), Buildable)
    }
}

impl<S: RequestState> Request<S, Buildable> {
    /// Finalizes the URL: the origin, then the fragment of every step in call
    /// order. The result cannot be finalized again.
    pub fn build(self) -> (r: Request<Build, NotBuildable>)
        ensures
            r.url_spec() == url_of(self.segments()),
            r.segments() == self.segments().push(Segment::Build),
            r.method_spec() == self.method_spec(),
    {
        proof {
            reveal_strlit("https://jsonplaceholder.typicode.com");
        }
        let mut url = String::from_str("https://jsonplaceholder.typicode.com");
        let n = self.custody.len();
        let mut i: usize = 0;
        while i < n
            invariant
                n == self.custody@.len(),
                i <= n,
                url@ == origin() + joined(self.custody@.take(i as int)),
            decreases n - i,
        {
            self.custody[i].append_to(&mut url);
            assert(self.custody@.take(i + 1).drop_last() == self.custody@.take(i as int));
            i = i + 1;
        }
        assert(self.custody@.take(n as int) == self.custody@);
        self.transition(Build(url), NotBuildable)
    }
}

impl Request<Build, NotBuildable> {
    /// The finished URL.
    pub closed spec fn url_spec(&self) -> Seq<char> {
        self.state.0@
    }

    /// The finished URL; the same string on every call.
    pub fn url(&self) -> (r: String)
        ensures
            r@ == self.url_spec(),
    {
        self.state.0.clone()
    }
}

} // verus!

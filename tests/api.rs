use jsonplaceholder::segment::append_decimal;
use jsonplaceholder::api::{
    CollectionType, Id, Initialized, MethodType, NotBuildable, QueryType, Query, Relation,
    Request, RequestState, Resource, Segment, Method,
};

#[test]
fn get_resource_users_url() {
    let url = Request::new(MethodType::Get)
        .resource(CollectionType::Users)
        .build()
        .url();
    assert_eq!(url, "https://jsonplaceholder.typicode.com/users");
}

#[test]
fn get_comments_query_post_id_url() {
    let url = Request::new(MethodType::Get)
        .resource(CollectionType::Comments)
        .query(QueryType::PostId, 1)
        .build()
        .url();
    assert_eq!(
        url,
        "https://jsonplaceholder.typicode.com/comments?postId=1"
    );
}

#[test]
fn get_posts_id_url() {
    let url = Request::new(MethodType::Get)
        .resource(CollectionType::Posts)
        .id(1)
        .build()
        .url();
    assert_eq!(url, "https://jsonplaceholder.typicode.com/posts/1");
}

#[test]
fn get_posts_id_comments_url() {
    let url = Request::new(MethodType::Get)
        .resource(CollectionType::Posts)
        .id(1)
        .relation(CollectionType::Comments)
        .build()
        .url();
    assert_eq!(url, "https://jsonplaceholder.typicode.com/posts/1/comments");
}

#[test]
fn every_collection_resource_url() {
    let cases = [
        (CollectionType::Posts, "https://jsonplaceholder.typicode.com/posts"),
        (CollectionType::Comments, "https://jsonplaceholder.typicode.com/comments"),
        (CollectionType::Albums, "https://jsonplaceholder.typicode.com/albums"),
        (CollectionType::Photos, "https://jsonplaceholder.typicode.com/photos"),
        (CollectionType::Todos, "https://jsonplaceholder.typicode.com/todos"),
        (CollectionType::Users, "https://jsonplaceholder.typicode.com/users"),
    ];
    for (c, expected) in cases {
        assert_eq!(Request::new(MethodType::Get).resource(c).build().url(), expected);
    }
}

#[test]
fn nested_relation_url() {
    let url = Request::new(MethodType::Get)
        .resource(CollectionType::Users)
        .id(10)
        .relation(CollectionType::Todos)
        .build()
        .url();
    assert_eq!(url, "https://jsonplaceholder.typicode.com/users/10/todos");
}

#[test]
fn negative_id_is_rendered_with_minus() {
    let url = Request::new(MethodType::Get)
        .resource(CollectionType::Posts)
        .id(-5)
        .build()
        .url();
    assert_eq!(url, "https://jsonplaceholder.typicode.com/posts/-5");
}

#[test]
fn negative_query_value_is_rendered_with_minus() {
    let url = Request::new(MethodType::Get)
        .resource(CollectionType::Comments)
        .query(QueryType::PostId, -42)
        .build()
        .url();
    assert_eq!(url, "https://jsonplaceholder.typicode.com/comments?postId=-42");
}

#[test]
fn zero_and_extreme_ids() {
    let zero = Request::new(MethodType::Get).resource(CollectionType::Photos).id(0).build().url();
    assert_eq!(zero, "https://jsonplaceholder.typicode.com/photos/0");
    let max = Request::new(MethodType::Get).resource(CollectionType::Photos).id(isize::MAX).build().url();
    assert_eq!(max, format!("https://jsonplaceholder.typicode.com/photos/{}", isize::MAX));
    let min = Request::new(MethodType::Get).resource(CollectionType::Photos).id(isize::MIN).build().url();
    assert_eq!(min, format!("https://jsonplaceholder.typicode.com/photos/{}", isize::MIN));
}

#[test]
fn multi_digit_id() {
    let url = Request::new(MethodType::Delete)
        .resource(CollectionType::Albums)
        .id(1207)
        .relation(CollectionType::Photos)
        .build()
        .url();
    assert_eq!(url, "https://jsonplaceholder.typicode.com/albums/1207/photos");
}

#[test]
fn url_is_the_same_on_every_call() {
    let built = Request::new(MethodType::Get)
        .resource(CollectionType::Posts)
        .id(3)
        .build();
    let first = built.url();
    let second = built.url();
    let third = built.url();
    assert_eq!(first, second);
    assert_eq!(second, third);
    assert_eq!(first, "https://jsonplaceholder.typicode.com/posts/3");
}

#[test]
fn request_keeps_its_method() {
    let built = Request::new(MethodType::Patch)
        .resource(CollectionType::Todos)
        .query(QueryType::PostId, 2)
        .build();
    assert_eq!(built.method(), MethodType::Patch);
    let fresh: Request<Initialized, NotBuildable> = Request::default();
    assert_eq!(fresh.method(), MethodType::Get);
    let url = fresh.resource(CollectionType::Users).build().url();
    assert_eq!(url, "https://jsonplaceholder.typicode.com/users");
}

#[test]
fn method_verbs() {
    assert_eq!(MethodType::Get.as_str(), "GET");
    assert_eq!(MethodType::Post.as_str(), "POST");
    assert_eq!(MethodType::Put.as_str(), "PUT");
    assert_eq!(MethodType::Patch.as_str(), "PATCH");
    assert_eq!(MethodType::Delete.as_str(), "DELETE");
}

#[test]
fn collection_and_query_names() {
    assert_eq!(CollectionType::Posts.as_str(), "/posts");
    assert_eq!(CollectionType::Comments.as_str(), "/comments");
    assert_eq!(CollectionType::Albums.as_str(), "/albums");
    assert_eq!(CollectionType::Photos.as_str(), "/photos");
    assert_eq!(CollectionType::Todos.as_str(), "/todos");
    assert_eq!(CollectionType::Users.as_str(), "/users");
    assert_eq!(QueryType::PostId.as_str(), "postId");
}

#[test]
fn stage_fragments() {
    assert_eq!(Initialized.get_param(), "");
    assert_eq!(Method(MethodType::Put).get_param(), "PUT");
    assert_eq!(Resource(CollectionType::Albums).get_param(), "/albums");
    assert_eq!(Id(-7).get_param(), "/-7");
    assert_eq!(Relation(CollectionType::Comments).get_param(), "/comments");
    assert_eq!(Query(QueryType::PostId, 99).get_param(), "?postId=99");
    assert_eq!(Id(12).segment(), Segment::Id(12));
    assert_eq!(Query(QueryType::PostId, 3).segment(), Segment::Query(QueryType::PostId, 3));
}

#[test]
fn segment_appends_its_fragment() {
    let mut out = String::from("x");
    Segment::Query(QueryType::PostId, 250).append_to(&mut out);
    assert_eq!(out, "x?postId=250");
    Segment::Build.append_to(&mut out);
    Segment::Initialized.append_to(&mut out);
    assert_eq!(out, "x?postId=250");
    Segment::Id(-31).append_to(&mut out);
    assert_eq!(out, "x?postId=250/-31");
}

#[test]
fn decimal_rendering() {
    let mut out = String::new();
    append_decimal(&mut out, -120);
    assert_eq!(out, "-120");
    append_decimal(&mut out, 9);
    assert_eq!(out, "-1209");
    append_decimal(&mut out, 0);
    assert_eq!(out, "-12090");
}

//! The per-operation layout of the generated API description: the
//! parameters, request body and responses each documented operation
//! carries, as a JSON tree.
use vstd::prelude::*;
use crate::openapi::{api_title, ApiOperation, EntrySchema, FieldSchema, OpKind};
use crate::text::to_owned_string;

verus! {

broadcast use vstd::string::group_string_axioms, vstd::std_specs::vec::group_vec_axioms;

/// A JSON value of the description. Object members keep their order.
#[derive(Debug)]
pub enum JsonTree {
    Bool(bool),
    Int(i64),
    Str(String),
    Array(Vec<JsonTree>),
    Object(Vec<(String, JsonTree)>),
}

/// The mathematical value of a [`JsonTree`].
pub enum Json {
    Bool(bool),
    Int(int),
    Str(Seq<char>),
    Array(Seq<Json>),
    Object(Seq<(Seq<char>, Json)>),
}

/// The value a tree stands for.
pub open spec fn json_of(t: JsonTree) -> Json
    decreases t,
{
    match t {
        JsonTree::Bool(b) => Json::Bool(b),
        JsonTree::Int(n) => Json::Int(n as int),
        JsonTree::Str(s) => Json::Str(s@),
        JsonTree::Array(v) => Json::Array(
            Seq::new(v.len() as nat, |i: int| if 0 <= i < v.len() { json_of(v[i]) } else { Json::Bool(false) }),
        ),
        JsonTree::Object(m) => Json::Object(
            Seq::new(
                m.len() as nat,
                |i: int| if 0 <= i < m.len() { (m[i].0@, json_of(m[i].1)) } else { (Seq::empty(), Json::Bool(false)) },
            ),
        ),
    }
}


/// The member views of an object under construction.
pub open spec fn members_json(m: Seq<(String, JsonTree)>) -> Seq<(Seq<char>, Json)> {
    m.map_values(|p: (String, JsonTree)| (p.0@, json_of(p.1)))
}

/// The element views of an array under construction.
pub open spec fn items_json(v: Seq<JsonTree>) -> Seq<Json> {
    v.map_values(|x: JsonTree| json_of(x))
}

/// `{"type": t}`.
pub open spec fn type_json(t: Seq<char>) -> Json {
    Json::Object(seq![("type"@, Json::Str(t))])
}

/// `{"$ref": r}`.
pub open spec fn ref_json(r: Seq<char>) -> Json {
    Json::Object(seq![("$ref"@, Json::Str(r))])
}

/// The shared error response.
pub open spec fn error_json() -> Json {
    ref_json("#/components/responses/Error"@)
}

/// The shared validation-failure response.
pub open spec fn invalid_json() -> Json {
    ref_json("#/components/responses/ValidationError"@)
}

/// A JSON body under `application/json`.
pub open spec fn json_content(schema: Json) -> Json {
    Json::Object(seq![("application/json"@, Json::Object(seq![("schema"@, schema)]))])
}

/// A described response with a JSON body.
pub open spec fn response_json(description: Seq<char>, schema: Json) -> Json {
    Json::Object(seq![("description"@, Json::Str(description)), ("content"@, json_content(schema))])
}

/// The `{id}` path parameter.
pub open spec fn id_param_json() -> Json {
    Json::Object(
        seq![
            ("name"@, Json::Str("id"@)),
            ("in"@, Json::Str("path"@)),
            ("required"@, Json::Bool(true)),
            ("schema"@, Json::Object(seq![("type"@, Json::Str("integer"@)), ("format"@, Json::Str("int64"@))])),
        ],
    )
}

/// The acknowledgement a write returns: `ok`, `admin_name`, `id`;
/// `example` marks `ok` as `true` in the create response.
pub open spec fn ack_json(example: bool) -> Json {
    let ok = if example {
        Json::Object(seq![("type"@, Json::Str("boolean"@)), ("example"@, Json::Bool(true))])
    } else {
        type_json("boolean"@)
    };
    Json::Object(
        seq![
            ("type"@, Json::Str("object"@)),
            (
                "required"@,
                Json::Array(seq![Json::Str("ok"@), Json::Str("admin_name"@), Json::Str("id"@)]),
            ),
            (
                "properties"@,
                Json::Object(
                    seq![("ok"@, ok), ("admin_name"@, type_json("string"@)), ("id"@, type_json("integer"@))],
                ),
            ),
        ],
    )
}

/// A required form-encoded request body of schema `r`.
pub open spec fn form_body_json(r: Seq<char>) -> Json {
    Json::Object(
        seq![
            ("required"@, Json::Bool(true)),
            (
                "content"@,
                Json::Object(
                    seq![("application/x-www-form-urlencoded"@, Json::Object(seq![("schema"@, ref_json(r))]))],
                ),
            ),
        ],
    )
}

/// A query parameter with its schema.
pub open spec fn query_json(name: Seq<char>, schema: Json) -> Json {
    Json::Object(seq![("name"@, Json::Str(name)), ("in"@, Json::Str("query"@)), ("schema"@, schema)])
}

/// The list operation's query parameters.
pub open spec fn list_params_json() -> Json {
    Json::Array(
        seq![
            Json::Object(
                seq![
                    ("name"@, Json::Str("q"@)),
                    ("in"@, Json::Str("query"@)),
                    ("schema"@, type_json("string"@)),
                    ("description"@, Json::Str("Free-text search across configured fields."@)),
                ],
            ),
            query_json("sort"@, type_json("string"@)),
            query_json(
                "dir"@,
                Json::Object(
                    seq![
                        ("type"@, Json::Str("string"@)),
                        ("enum"@, Json::Array(seq![Json::Str("asc"@), Json::Str("desc"@)])),
                    ],
                ),
            ),
            query_json(
                "page"@,
                Json::Object(seq![("type"@, Json::Str("integer"@)), ("minimum"@, Json::Int(1))]),
            ),
            query_json(
                "per_page"@,
                Json::Object(
                    seq![
                        ("type"@, Json::Str("integer"@)),
                        (
                            "enum"@,
                            Json::Array(seq![Json::Int(25), Json::Int(50), Json::Int(100), Json::Int(200)]),
                        ),
                    ],
                ),
            ),
        ],
    )
}

/// One page of rows of schema `r`, with its counts.
pub open spec fn page_schema_json(r: Seq<char>) -> Json {
    Json::Object(
        seq![
            ("type"@, Json::Str("object"@)),
            (
                "required"@,
                Json::Array(
                    seq![
                        Json::Str("rows"@),
                        Json::Str("total"@),
                        Json::Str("page"@),
                        Json::Str("per_page"@),
                        Json::Str("pages"@),
                    ],
                ),
            ),
            (
                "properties"@,
                Json::Object(
                    seq![
                        ("rows"@, Json::Object(seq![("type"@, Json::Str("array"@)), ("items"@, ref_json(r))])),
                        ("total"@, type_json("integer"@)),
                        ("page"@, type_json("integer"@)),
                        ("per_page"@, type_json("integer"@)),
                        ("pages"@, type_json("integer"@)),
                    ],
                ),
            ),
        ],
    )
}

/// What one operation documents beyond its summary and tag, by kind;
/// `r` is the schema reference of the model's rows.
pub open spec fn kind_members_json(kind: OpKind, r: Seq<char>) -> Seq<(Seq<char>, Json)> {
    match kind {
        OpKind::List => seq![
            ("parameters"@, list_params_json()),
            (
                "responses"@,
                Json::Object(
                    seq![("200"@, response_json("Page of rows."@, page_schema_json(r))), ("default"@, error_json())],
                ),
            ),
        ],
        OpKind::Create => seq![
            ("requestBody"@, form_body_json(r)),
            (
                "responses"@,
                Json::Object(
                    seq![
                        ("201"@, response_json("Row created."@, ack_json(true))),
                        ("400"@, invalid_json()),
                        ("default"@, error_json()),
                    ],
                ),
            ),
        ],
        OpKind::Detail => seq![
            ("parameters"@, Json::Array(seq![id_param_json()])),
            (
                "responses"@,
                Json::Object(
                    seq![
                        ("200"@, response_json("Row."@, ref_json(r))),
                        ("404"@, error_json()),
                        ("default"@, error_json()),
                    ],
                ),
            ),
        ],
        OpKind::Update => seq![
            ("parameters"@, Json::Array(seq![id_param_json()])),
            ("requestBody"@, form_body_json(r)),
            (
                "responses"@,
                Json::Object(
                    seq![
                        ("200"@, response_json("Row updated."@, ack_json(false))),
                        ("400"@, invalid_json()),
                        ("404"@, error_json()),
                        ("default"@, error_json()),
                    ],
                ),
            ),
        ],
        OpKind::Delete => seq![
            ("parameters"@, Json::Array(seq![id_param_json()])),
            (
                "responses"@,
                Json::Object(
                    seq![
                        ("200"@, response_json("Row deleted."@, ack_json(false))),
                        ("404"@, error_json()),
                        ("default"@, error_json()),
                    ],
                ),
            ),
        ],
    }
}

/// The operation object of the description: its summary, its tag, then
/// the members of its kind (see [`kind_members_json`]).
pub open spec fn operation_json(kind: OpKind, summary: Seq<char>, tag: Seq<char>, r: Seq<char>) -> Json {
    Json::Object(
        seq![("summary"@, Json::Str(summary)), ("tags"@, Json::Array(seq![Json::Str(tag)]))]
            + kind_members_json(kind, r),
    )
}


// ---------------------------------------------------------------------------
// Building the trees
// ---------------------------------------------------------------------------

fn text(lit: &str) -> (t: JsonTree)
    ensures
        json_of(t) == Json::Str(lit@),
{
    JsonTree::Str(to_owned_string(lit))
}

fn member(key: &str, value: JsonTree) -> (p: (String, JsonTree))
    ensures
        p.0@ == key@,
        p.1 == value,
{
    (to_owned_string(key), value)
}

fn object(m: Vec<(String, JsonTree)>) -> (t: JsonTree)
    ensures
        json_of(t) == Json::Object(members_json(m@)),
{
    let ghost g = m;
    let t = JsonTree::Object(m);
    proof {
        assert(json_of(t) is Object);
        assert(json_of(t)->Object_0 =~= members_json(g@));
    }
    t
}

fn array(v: Vec<JsonTree>) -> (t: JsonTree)
    ensures
        json_of(t) == Json::Array(items_json(v@)),
{
    let ghost g = v;
    let t = JsonTree::Array(v);
    proof {
        assert(json_of(t) is Array);
        assert(json_of(t)->Array_0 =~= items_json(g@));
    }
    t
}

fn type_tree(t: &str) -> (r: JsonTree)
    ensures
        json_of(r) == type_json(t@),
{
    let m = vec![member("type", text(t))];
    let ghost g = m@;
    let r = object(m);
    assert(members_json(g) =~= seq![("type"@, Json::Str(t@))]);
    r
}

fn ref_tree(target: &str) -> (r: JsonTree)
    ensures
        json_of(r) == ref_json(target@),
{
    let m = vec![member("$ref", text(target))];
    let ghost g = m@;
    let r = object(m);
    assert(members_json(g) =~= seq![("$ref"@, Json::Str(target@))]);
    r
}

fn json_content_tree(schema: JsonTree) -> (r: JsonTree)
    ensures
        json_of(r) == json_content(json_of(schema)),
{
    let ghost js = json_of(schema);
    let inner = vec![member("schema", schema)];
    let ghost gi = inner@;
    let inner = object(inner);
    assert(members_json(gi) =~= seq![("schema"@, js)]);
    let m = vec![member("application/json", inner)];
    let ghost g = m@;
    let r = object(m);
    assert(members_json(g) =~= seq![("application/json"@, Json::Object(seq![("schema"@, js)]))]);
    r
}

fn response_tree(description: &str, schema: JsonTree) -> (r: JsonTree)
    ensures
        json_of(r) == response_json(description@, json_of(schema)),
{
    let ghost js = json_of(schema);
    let m = vec![member("description", text(description)), member("content", json_content_tree(schema))];
    let ghost g = m@;
    let r = object(m);
    assert(members_json(g) =~= seq![("description"@, Json::Str(description@)), ("content"@, json_content(js))]);
    r
}

fn id_param_tree() -> (r: JsonTree)
    ensures
        json_of(r) == id_param_json(),
{
    let sm = vec![member("type", text("integer")), member("format", text("int64"))];
    let ghost gs = sm@;
    let schema = object(sm);
    assert(members_json(gs) =~= seq![("type"@, Json::Str("integer"@)), ("format"@, Json::Str("int64"@))]);
    let m = vec![
        member("name", text("id")),
        member("in", text("path")),
        member("required", JsonTree::Bool(true)),
        member("schema", schema),
    ];
    let ghost g = m@;
    let r = object(m);
    assert(members_json(g) =~= seq![
        ("name"@, Json::Str("id"@)),
        ("in"@, Json::Str("path"@)),
        ("required"@, Json::Bool(true)),
        ("schema"@, Json::Object(seq![("type"@, Json::Str("integer"@)), ("format"@, Json::Str("int64"@))])),
    ]);
    r
}

fn ack_tree(example: bool) -> (r: JsonTree)
    ensures
        json_of(r) == ack_json(example),
{
    let ok = if example {
        let om = vec![member("type", text("boolean")), member("example", JsonTree::Bool(true))];
        let ghost go = om@;
        let ok = object(om);
        assert(members_json(go) =~= seq![("type"@, Json::Str("boolean"@)), ("example"@, Json::Bool(true))]);
        ok
    } else {
        type_tree("boolean")
    };
    let ghost jok = json_of(ok);
    let req = vec![text("ok"), text("admin_name"), text("id")];
    let ghost gr = req@;
    let req = array(req);
    assert(items_json(gr) =~= seq![Json::Str("ok"@), Json::Str("admin_name"@), Json::Str("id"@)]);
    let pm = vec![member("ok", ok), member("admin_name", type_tree("string")), member("id", type_tree("integer"))];
    let ghost gp = pm@;
    let props = object(pm);
    assert(members_json(gp) =~= seq![
        ("ok"@, jok),
        ("admin_name"@, type_json("string"@)),
        ("id"@, type_json("integer"@)),
    ]);
    let m = vec![member("type", text("object")), member("required", req), member("properties", props)];
    let ghost g = m@;
    let r = object(m);
    assert(members_json(g) =~= seq![
        ("type"@, Json::Str("object"@)),
        ("required"@, Json::Array(seq![Json::Str("ok"@), Json::Str("admin_name"@), Json::Str("id"@)])),
        (
            "properties"@,
            Json::Object(seq![("ok"@, jok), ("admin_name"@, type_json("string"@)), ("id"@, type_json("integer"@))]),
        ),
    ]);
    r
}

fn form_body_tree(target: &str) -> (r: JsonTree)
    ensures
        json_of(r) == form_body_json(target@),
{
    let sm = vec![member("schema", ref_tree(target))];
    let ghost gs = sm@;
    let schema = object(sm);
    assert(members_json(gs) =~= seq![("schema"@, ref_json(target@))]);
    let cm = vec![member("application/x-www-form-urlencoded", schema)];
    let ghost gc = cm@;
    let content = object(cm);
    assert(members_json(gc) =~= seq![
        ("application/x-www-form-urlencoded"@, Json::Object(seq![("schema"@, ref_json(target@))])),
    ]);
    let m = vec![member("required", JsonTree::Bool(true)), member("content", content)];
    let ghost g = m@;
    let r = object(m);
    assert(members_json(g) =~= seq![
        ("required"@, Json::Bool(true)),
        (
            "content"@,
            Json::Object(
                seq![("application/x-www-form-urlencoded"@, Json::Object(seq![("schema"@, ref_json(target@))]))],
            ),
        ),
    ]);
    r
}

fn query_tree(name: &str, schema: JsonTree) -> (r: JsonTree)
    ensures
        json_of(r) == query_json(name@, json_of(schema)),
{
    let ghost js = json_of(schema);
    let m = vec![member("name", text(name)), member("in", text("query")), member("schema", schema)];
    let ghost g = m@;
    let r = object(m);
    assert(members_json(g) =~= seq![("name"@, Json::Str(name@)), ("in"@, Json::Str("query"@)), ("schema"@, js)]);
    r
}

fn list_params_tree() -> (r: JsonTree)
    ensures
        json_of(r) == list_params_json(),
{
    let qm = vec![
        member("name", text("q")),
        member("in", text("query")),
        member("schema", type_tree("string")),
        member("description", text("Free-text search across configured fields.")),
    ];
    let ghost gq = qm@;
    let q = object(qm);
    let ghost jq = Json::Object(
        seq![
            ("name"@, Json::Str("q"@)),
            ("in"@, Json::Str("query"@)),
            ("schema"@, type_json("string"@)),
            ("description"@, Json::Str("Free-text search across configured fields."@)),
        ],
    );
    assert(members_json(gq) =~= jq->Object_0);
    let sort = query_tree("sort", type_tree("string"));
    let dirs = vec![text("asc"), text("desc")];
    let ghost gd = dirs@;
    let dirs = array(dirs);
    assert(items_json(gd) =~= seq![Json::Str("asc"@), Json::Str("desc"@)]);
    let dm = vec![member("type", text("string")), member("enum", dirs)];
    let ghost gdm = dm@;
    let dir_schema = object(dm);
    let ghost jd = Json::Object(
        seq![("type"@, Json::Str("string"@)), ("enum"@, Json::Array(seq![Json::Str("asc"@), Json::Str("desc"@)]))],
    );
    assert(members_json(gdm) =~= jd->Object_0);
    let dir = query_tree("dir", dir_schema);
    let pm = vec![member("type", text("integer")), member("minimum", JsonTree::Int(1))];
    let ghost gp = pm@;
    let page_schema = object(pm);
    let ghost jp = Json::Object(seq![("type"@, Json::Str("integer"@)), ("minimum"@, Json::Int(1))]);
    assert(members_json(gp) =~= jp->Object_0);
    let page = query_tree("page", page_schema);
    let sizes = vec![JsonTree::Int(25), JsonTree::Int(50), JsonTree::Int(100), JsonTree::Int(200)];
    let ghost gz = sizes@;
    let sizes = array(sizes);
    assert(items_json(gz) =~= seq![Json::Int(25), Json::Int(50), Json::Int(100), Json::Int(200)]);
    let sm = vec![member("type", text("integer")), member("enum", sizes)];
    let ghost gsm = sm@;
    let size_schema = object(sm);
    let ghost jz = Json::Object(
        seq![
            ("type"@, Json::Str("integer"@)),
            ("enum"@, Json::Array(seq![Json::Int(25), Json::Int(50), Json::Int(100), Json::Int(200)])),
        ],
    );
    assert(members_json(gsm) =~= jz->Object_0);
    let per_page = query_tree("per_page", size_schema);
    let v = vec![q, sort, dir, page, per_page];
    let ghost g = v@;
    let r = array(v);
    assert(items_json(g) =~= seq![
        jq,
        query_json("sort"@, type_json("string"@)),
        query_json("dir"@, jd),
        query_json("page"@, jp),
        query_json("per_page"@, jz),
    ]);
    r
}

fn page_schema_tree(target: &str) -> (r: JsonTree)
    ensures
        json_of(r) == page_schema_json(target@),
{
    let names = vec![text("rows"), text("total"), text("page"), text("per_page"), text("pages")];
    let ghost gn = names@;
    let req = array(names);
    let ghost jreq = seq![
        Json::Str("rows"@),
        Json::Str("total"@),
        Json::Str("page"@),
        Json::Str("per_page"@),
        Json::Str("pages"@),
    ];
    assert(items_json(gn) =~= jreq);
    let rm = vec![member("type", text("array")), member("items", ref_tree(target))];
    let ghost gr = rm@;
    let rows = object(rm);
    let ghost jrows = seq![("type"@, Json::Str("array"@)), ("items"@, ref_json(target@))];
    assert(members_json(gr) =~= jrows);
    let pm = vec![
        member("rows", rows),
        member("total", type_tree("integer")),
        member("page", type_tree("integer")),
        member("per_page", type_tree("integer")),
        member("pages", type_tree("integer")),
    ];
    let ghost gp = pm@;
    let props = object(pm);
    let ghost jprops = seq![
        ("rows"@, Json::Object(jrows)),
        ("total"@, type_json("integer"@)),
        ("page"@, type_json("integer"@)),
        ("per_page"@, type_json("integer"@)),
        ("pages"@, type_json("integer"@)),
    ];
    assert(members_json(gp) =~= jprops);
    let m = vec![member("type", text("object")), member("required", req), member("properties", props)];
    let ghost g = m@;
    let r = object(m);
    assert(members_json(g) =~= seq![
        ("type"@, Json::Str("object"@)),
        ("required"@, Json::Array(jreq)),
        ("properties"@, Json::Object(jprops)),
    ]);
    r
}

/// The schema reference an operation's layout uses: empty where the
/// operation names none.
pub open spec fn ref_text(r: Option<String>) -> Seq<char> {
    match r {
        Some(s) => s@,
        None => Seq::empty(),
    }
}

/// The operation object for `op` in the description (see
/// [`operation_json`]).
pub fn operation_tree(op: &ApiOperation) -> (t: JsonTree)
    ensures
        json_of(t) == operation_json(op.kind, op.summary@, op.tag@, ref_text(op.schema_ref)),
{
    let r: &str = match &op.schema_ref {
        Some(s) => s.as_str(),
        None => "",
    };
    assert(r@ == ref_text(op.schema_ref)) by {
        reveal_strlit("");
    }
    let tags = vec![text(op.tag)];
    let ghost gt = tags@;
    let tags = array(tags);
    assert(items_json(gt) =~= seq![Json::Str(op.tag@)]);
    let mut m = vec![member("summary", JsonTree::Str(op.summary.clone())), member("tags", tags)];
    let ghost head = seq![("summary"@, Json::Str(op.summary@)), ("tags"@, Json::Array(seq![Json::Str(op.tag@)]))];
    assert(members_json(m@) =~= head);
    match op.kind {
        OpKind::List => {
            m.push(member("parameters", list_params_tree()));
            let responses = vec![
                member("200", response_tree("Page of rows.", page_schema_tree(r))),
                member("default", ref_tree("#/components/responses/Error")),
            ];
            let ghost gr = responses@;
            let responses = object(responses);
            assert(members_json(gr) =~= seq![
                ("200"@, response_json("Page of rows."@, page_schema_json(r@))),
                ("default"@, error_json()),
            ]);
            m.push(member("responses", responses));
        },
        OpKind::Create => {
            m.push(member("requestBody", form_body_tree(r)));
            let responses = vec![
                member("201", response_tree("Row created.", ack_tree(true))),
                member("400", ref_tree("#/components/responses/ValidationError")),
                member("default", ref_tree("#/components/responses/Error")),
            ];
            let ghost gr = responses@;
            let responses = object(responses);
            assert(members_json(gr) =~= seq![
                ("201"@, response_json("Row created."@, ack_json(true))),
                ("400"@, invalid_json()),
                ("default"@, error_json()),
            ]);
            m.push(member("responses", responses));
        },
        OpKind::Detail => {
            let params = vec![id_param_tree()];
            let ghost gp = params@;
            let params = array(params);
            assert(items_json(gp) =~= seq![id_param_json()]);
            m.push(member("parameters", params));
            let responses = vec![
                member("200", response_tree("Row.", ref_tree(r))),
                member("404", ref_tree("#/components/responses/Error")),
                member("default", ref_tree("#/components/responses/Error")),
            ];
            let ghost gr = responses@;
            let responses = object(responses);
            assert(members_json(gr) =~= seq![
                ("200"@, response_json("Row."@, ref_json(r@))),
                ("404"@, error_json()),
                ("default"@, error_json()),
            ]);
            m.push(member("responses", responses));
        },
        OpKind::Update => {
            let params = vec![id_param_tree()];
            let ghost gp = params@;
            let params = array(params);
            assert(items_json(gp) =~= seq![id_param_json()]);
            m.push(member("parameters", params));
            m.push(member("requestBody", form_body_tree(r)));
            let responses = vec![
                member("200", response_tree("Row updated.", ack_tree(false))),
                member("400", ref_tree("#/components/responses/ValidationError")),
                member("404", ref_tree("#/components/responses/Error")),
                member("default", ref_tree("#/components/responses/Error")),
            ];
            let ghost gr = responses@;
            let responses = object(responses);
            assert(members_json(gr) =~= seq![
                ("200"@, response_json("Row updated."@, ack_json(false))),
                ("400"@, invalid_json()),
                ("404"@, error_json()),
                ("default"@, error_json()),
            ]);
            m.push(member("responses", responses));
        },
        OpKind::Delete => {
            let params = vec![id_param_tree()];
            let ghost gp = params@;
            let params = array(params);
            assert(items_json(gp) =~= seq![id_param_json()]);
            m.push(member("parameters", params));
            let responses = vec![
                member("200", response_tree("Row deleted.", ack_tree(false))),
                member("404", ref_tree("#/components/responses/Error")),
                member("default", ref_tree("#/components/responses/Error")),
            ];
            let ghost gr = responses@;
            let responses = object(responses);
            assert(members_json(gr) =~= seq![
                ("200"@, response_json("Row deleted."@, ack_json(false))),
                ("404"@, error_json()),
                ("default"@, error_json()),
            ]);
            m.push(member("responses", responses));
        },
    }
    assert(members_json(m@) =~= head + kind_members_json(op.kind, r@));
    object(m)
}


/// The `info` object of the description for the admin named `app`.
pub open spec fn info_json(app: Seq<char>) -> Json {
    Json::Object(
        seq![
            ("title"@, Json::Str(app + " admin API"@)),
            ("version"@, Json::Str("v1"@)),
            (
                "description"@,
                Json::Str(
                    "Auto-generated from rustio-admin's registered models. See `Accept: application/json` on each list / detail / write endpoint for the response shape. Request bodies are still form-encoded per the v1 JSON-write-paths caveat."@,
                ),
            ),
        ],
    )
}

/// The error body every operation may answer with: a message and an
/// HTTP status.
pub open spec fn error_body_json() -> Json {
    Json::Object(
        seq![
            ("type"@, Json::Str("object"@)),
            ("required"@, Json::Array(seq![Json::Str("error"@), Json::Str("status"@)])),
            ("properties"@, Json::Object(seq![("error"@, type_json("string"@)), ("status"@, type_json("integer"@))])),
        ],
    )
}

/// The body of a validation failure: the messages and status 400.
pub open spec fn invalid_body_json() -> Json {
    Json::Object(
        seq![
            ("type"@, Json::Str("object"@)),
            ("required"@, Json::Array(seq![Json::Str("errors"@), Json::Str("status"@)])),
            (
                "properties"@,
                Json::Object(
                    seq![
                        ("errors"@, Json::Object(seq![("type"@, Json::Str("array"@)), ("items"@, type_json("string"@))])),
                        ("status"@, Json::Object(seq![("type"@, Json::Str("integer"@)), ("example"@, Json::Int(400))])),
                    ],
                ),
            ),
        ],
    )
}

/// The shared responses the operations refer to.
pub open spec fn shared_responses_json() -> Json {
    Json::Object(
        seq![
            ("ValidationError"@, response_json("Form validation failed."@, invalid_body_json())),
            ("Error"@, response_json("Framework error (not-found / forbidden / internal)."@, error_body_json())),
        ],
    )
}

/// The `info` object for the admin named `app_name` (see [`info_json`]).
pub fn info_tree(app_name: &str) -> (t: JsonTree)
    ensures
        json_of(t) == info_json(app_name@),
{
    let m = vec![
        member("title", JsonTree::Str(api_title(app_name))),
        member("version", text("v1")),
        member(
            "description",
            text(
                "Auto-generated from rustio-admin's registered models. See `Accept: application/json` on each list / detail / write endpoint for the response shape. Request bodies are still form-encoded per the v1 JSON-write-paths caveat.",
            ),
        ),
    ];
    let ghost g = m@;
    let t = object(m);
    assert(members_json(g) =~= info_json(app_name@)->Object_0);
    t
}

/// The shared responses (see [`shared_responses_json`]).
pub fn shared_responses_tree() -> (t: JsonTree)
    ensures
        json_of(t) == shared_responses_json(),
{
    let er = vec![text("error"), text("status")];
    let ghost ger = er@;
    let er = array(er);
    assert(items_json(ger) =~= seq![Json::Str("error"@), Json::Str("status"@)]);
    let ep = vec![member("error", type_tree("string")), member("status", type_tree("integer"))];
    let ghost gep = ep@;
    let ep = object(ep);
    assert(members_json(gep) =~= seq![("error"@, type_json("string"@)), ("status"@, type_json("integer"@))]);
    let eb = vec![member("type", text("object")), member("required", er), member("properties", ep)];
    let ghost geb = eb@;
    let eb = object(eb);
    assert(members_json(geb) =~= error_body_json()->Object_0);

    let ir = vec![text("errors"), text("status")];
    let ghost gir = ir@;
    let ir = array(ir);
    assert(items_json(gir) =~= seq![Json::Str("errors"@), Json::Str("status"@)]);
    let errs = vec![member("type", text("array")), member("items", type_tree("string"))];
    let ghost gerrs = errs@;
    let errs = object(errs);
    assert(members_json(gerrs) =~= seq![("type"@, Json::Str("array"@)), ("items"@, type_json("string"@))]);
    let st = vec![member("type", text("integer")), member("example", JsonTree::Int(400))];
    let ghost gst = st@;
    let st = object(st);
    assert(members_json(gst) =~= seq![("type"@, Json::Str("integer"@)), ("example"@, Json::Int(400))]);
    let ip = vec![member("errors", errs), member("status", st)];
    let ghost gip = ip@;
    let ip = object(ip);
    assert(members_json(gip) =~= seq![
        ("errors"@, Json::Object(seq![("type"@, Json::Str("array"@)), ("items"@, type_json("string"@))])),
        ("status"@, Json::Object(seq![("type"@, Json::Str("integer"@)), ("example"@, Json::Int(400))])),
    ]);
    let ib = vec![member("type", text("object")), member("required", ir), member("properties", ip)];
    let ghost gib = ib@;
    let ib = object(ib);
    assert(members_json(gib) =~= invalid_body_json()->Object_0);

    let m = vec![
        member("ValidationError", response_tree("Form validation failed.", ib)),
        member("Error", response_tree("Framework error (not-found / forbidden / internal).", eb)),
    ];
    let ghost g = m@;
    let t = object(m);
    assert(members_json(g) =~= shared_responses_json()->Object_0);
    t
}


/// One property's schema: its type, then its format, description and
/// nullability where they apply.
pub open spec fn field_schema_json(s: FieldSchema) -> Json {
    let format = match s.format {
        Some(f) => seq![("format"@, Json::Str(f@))],
        None => Seq::empty(),
    };
    let description = match s.description {
        Some(d) => seq![("description"@, Json::Str(d@))],
        None => Seq::empty(),
    };
    let nullable = if s.nullable {
        seq![("nullable"@, Json::Bool(true))]
    } else {
        Seq::empty()
    };
    Json::Object(seq![("type"@, Json::Str(s.json_type@))] + format + description + nullable)
}

/// The properties of a model's object schema, in field order.
pub open spec fn properties_json(props: Seq<(&'static str, FieldSchema)>) -> Seq<(Seq<char>, Json)> {
    props.map_values(|p: (&'static str, FieldSchema)| (p.0@, field_schema_json(p.1)))
}

/// A model's object schema: `type`, `properties`, and `required` when
/// some field is non-nullable.
pub open spec fn entry_schema_json(e: EntrySchema) -> Json {
    let required = if e.required@.len() == 0 {
        Seq::empty()
    } else {
        seq![("required"@, Json::Array(e.required@.map_values(|n: &'static str| Json::Str(n@))))]
    };
    Json::Object(
        seq![("type"@, Json::Str("object"@)), ("properties"@, Json::Object(properties_json(e.properties@)))]
            + required,
    )
}

/// One property's schema tree (see [`field_schema_json`]).
pub fn field_schema_tree(s: &FieldSchema) -> (t: JsonTree)
    ensures
        json_of(t) == field_schema_json(*s),
{
    let mut m = vec![member("type", text(s.json_type))];
    let ghost g0 = members_json(m@);
    assert(g0 =~= seq![("type"@, Json::Str(s.json_type@))]);
    if let Some(f) = s.format {
        m.push(member("format", text(f)));
    }
    let ghost g1 = members_json(m@);
    if let Some(d) = s.description {
        m.push(member("description", text(d)));
    }
    let ghost g2 = members_json(m@);
    if s.nullable {
        m.push(member("nullable", JsonTree::Bool(true)));
    }
    proof {
        let format = match s.format {
            Some(f) => seq![("format"@, Json::Str(f@))],
            None => Seq::<(Seq<char>, Json)>::empty(),
        };
        let description = match s.description {
            Some(d) => seq![("description"@, Json::Str(d@))],
            None => Seq::<(Seq<char>, Json)>::empty(),
        };
        let nullable = if s.nullable {
            seq![("nullable"@, Json::Bool(true))]
        } else {
            Seq::<(Seq<char>, Json)>::empty()
        };
        assert(g1 =~= g0 + format);
        assert(g2 =~= g0 + format + description);
        assert(members_json(m@) =~= g0 + format + description + nullable);
    }
    object(m)
}

/// A model's object schema tree (see [`entry_schema_json`]).
pub fn entry_schema_tree(e: &EntrySchema) -> (t: JsonTree)
    ensures
        json_of(t) == entry_schema_json(*e),
{
    let mut props: Vec<(String, JsonTree)> = Vec::new();
    let mut i: usize = 0;
    while i < e.properties.len()
        invariant
            i <= e.properties@.len(),
            members_json(props@) == properties_json(e.properties@.take(i as int)),
        decreases e.properties@.len() - i,
    {
        let ghost before = members_json(props@);
        let (name, s) = e.properties[i];
        props.push(member(name, field_schema_tree(&s)));
        proof {
            let t = e.properties@.take(i + 1);
            assert(t.drop_last() =~= e.properties@.take(i as int));
            assert(members_json(props@) =~= before.push((name@, field_schema_json(s))));
            assert(properties_json(t) =~= properties_json(t.drop_last()).push(
                (t.last().0@, field_schema_json(t.last().1)),
            ));
        }
        i = i + 1;
    }
    assert(e.properties@.take(e.properties@.len() as int) =~= e.properties@);
    let ghost gp = members_json(props@);
    let props = object(props);
    let mut m = vec![member("type", text("object")), member("properties", props)];
    let ghost head = seq![("type"@, Json::Str("object"@)), ("properties"@, Json::Object(gp))];
    assert(members_json(m@) =~= head);
    if e.required.len() > 0 {
        let mut names: Vec<JsonTree> = Vec::new();
        let mut k: usize = 0;
        while k < e.required.len()
            invariant
                k <= e.required@.len(),
                items_json(names@) == e.required@.take(k as int).map_values(|n: &'static str| Json::Str(n@)),
            decreases e.required@.len() - k,
        {
            let ghost before = items_json(names@);
            names.push(text(e.required[k]));
            proof {
                let t = e.required@.take(k + 1);
                assert(t.drop_last() =~= e.required@.take(k as int));
                assert(items_json(names@) =~= before.push(Json::Str(e.required@[k as int]@)));
                assert(t.map_values(|n: &'static str| Json::Str(n@)) =~= t.drop_last().map_values(
                    |n: &'static str| Json::Str(n@),
                ).push(Json::Str(t.last()@)));
            }
            k = k + 1;
        }
        assert(e.required@.take(e.required@.len() as int) =~= e.required@);
        let ghost gn = items_json(names@);
        m.push(member("required", array(names)));
        assert(members_json(m@) =~= head + seq![("required"@, Json::Array(gn))]);
    }
    object(m)
}

} // verus!

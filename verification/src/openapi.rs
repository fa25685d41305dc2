//! The OpenAPI description of this service's HTTP interface.
use vstd::prelude::*;

use utoipa::openapi::path::{HttpMethod, Operation, OperationBuilder};
use utoipa::openapi::request_body::RequestBodyBuilder;
use utoipa::openapi::schema::{
    ArrayBuilder, Components, KnownFormat, Object, ObjectBuilder, Ref, SchemaFormat, Type,
};
use utoipa::openapi::{Content, Info, OpenApi, Paths, Required, ResponseBuilder};

use crate::identity::SERVICE;

verus! {

#[verifier::external_type_specification]
#[verifier::external_body]
pub struct ExOpenApi(utoipa::openapi::OpenApi);

#[verifier::external_type_specification]
#[verifier::external_body]
pub struct ExOperation(utoipa::openapi::path::Operation);

#[verifier::external_type_specification]
#[verifier::external_body]
pub struct ExObject(utoipa::openapi::schema::Object);

/// Version of the interface that the document describes.
pub const API_VERSION: &'static str = "0.1.0";

/// The media type of every request and reply body.
pub const JSON_MEDIA_TYPE: &'static str = "application/json";

/// The one path the service computes on.
pub const ROOT: &'static str = "/";

/// HTTP methods that the document uses.
#[derive(Clone, Copy, Debug, PartialEq, Eq, Structural)]
pub enum Verb {
    Get,
    Post,
}

/// Types of the fields of the documented bodies.
#[derive(Clone, Copy, Debug, PartialEq, Eq, Structural)]
pub enum FieldKind {
    /// An object schema of type `string`.
    Text,
    /// An object schema of type `number` with format `double`.
    Number,
    /// An array schema whose items are object schemas of type `string`.
    TextList,
}

/// The contents of one response or request body: pairs of a media type and
/// the name of the component schema that its schema refers to.
pub type Contents = Set<(Seq<char>, Seq<char>)>;

/// The responses of an operation: each status code mapped to its contents.
pub type ResponseTable = Map<Seq<char>, Contents>;

/// The request body of an operation: triples of a media type, the name of
/// the component schema it refers to, and whether the body is required.
/// Empty where the operation has no request body.
pub type RequestContents = Set<(Seq<char>, Seq<char>, bool)>;

/// The fields of an object schema: each property name mapped to its kind,
/// whether it is listed as required, and its description.
pub type FieldTable = Map<Seq<char>, (FieldKind, bool, Option<Seq<char>>)>;

/// The responses of each operation that `doc` describes, for the methods GET
/// and POST: each key of `doc.paths.paths`, paired with each of the two
/// methods whose operation is set in its path item, maps to
/// `response_contents` of that operation.
pub uninterp spec fn route_responses(doc: OpenApi) -> Map<(Seq<char>, Verb), ResponseTable>;

/// The request body of each operation that `doc` describes, for the methods
/// GET and POST, keyed as in `route_responses`: `request_contents` of that
/// operation.
pub uninterp spec fn route_requests(doc: OpenApi) -> Map<(Seq<char>, Verb), RequestContents>;

/// The schemas in `doc.components` (none where there are no components):
/// each schema name maps to `object_fields` of its object schema.
pub uninterp spec fn schema_fields(doc: OpenApi) -> Map<Seq<char>, FieldTable>;

/// The responses of `operation`: the keys of `operation.responses`, each
/// mapped to the (media type, schema name) pairs of its response's content,
/// where the content's schema is a reference `#/components/schemas/<name>`.
pub uninterp spec fn response_contents(operation: Operation) -> ResponseTable;

/// The request body of `operation`: for each content of
/// `operation.request_body` whose schema is a reference
/// `#/components/schemas/<name>`, its media type, that name, and whether
/// the body is `Required::True`; empty where there is no request body.
pub uninterp spec fn request_contents(operation: Operation) -> RequestContents;

/// The properties of the object schema `object`: each key of
/// `object.properties` mapped to the kind of its schema, whether
/// `object.required` lists it, and the description of its schema.
pub uninterp spec fn object_fields(object: Object) -> FieldTable;

/// The text of an optional text.
pub open spec fn text_of(text: Option<&str>) -> Option<Seq<char>> {
    match text {
        Some(t) => Some(t@),
        None => None,
    }
}

/// `OpenApi::new(Info::new(title, version), Paths::new())`: a document with no
/// paths and no components. Nothing is claimed here of its info.
#[verifier::external_body]
fn new_document(title: &str, version: &str) -> (doc: OpenApi)
    ensures
        route_responses(doc).dom() == Set::<(Seq<char>, Verb)>::empty(),
        route_requests(doc).dom() == Set::<(Seq<char>, Verb)>::empty(),
        schema_fields(doc).dom() == Set::<Seq<char>>::empty(),
{
    OpenApi::new(Info::new(title, version), Paths::new())
}

/// `Paths::add_path_operation` on `doc.paths`, for the single method `verb`:
/// afterwards (`path`, `verb`) is documented by `operation`, so with its
/// responses and request body, whatever documented it before; every other
/// operation stays as it was, and the components are untouched.
#[verifier::external_body]
fn add_operation(doc: &mut OpenApi, path: &str, verb: Verb, operation: Operation)
    ensures
        route_responses(*final(doc)) == route_responses(*old(doc)).insert(
            (path@, verb),
            response_contents(operation),
        ),
        route_requests(*final(doc)) == route_requests(*old(doc)).insert(
            (path@, verb),
            request_contents(operation),
        ),
        schema_fields(*final(doc)) == schema_fields(*old(doc)),
{
    let method = match verb {
        Verb::Get => HttpMethod::Get,
        Verb::Post => HttpMethod::Post,
    };
    doc.paths.add_path_operation(path, vec![method], operation);
}

/// Inserts `object` under `name` into the schemas of `doc.components`
/// (`Components::new()` first where there are none): afterwards `name`
/// names `object`, so with its fields, whatever it named before; every
/// other schema stays as it was, and the paths are untouched.
#[verifier::external_body]
fn add_schema(doc: &mut OpenApi, name: &str, object: Object)
    ensures
        schema_fields(*final(doc)) == schema_fields(*old(doc)).insert(name@, object_fields(object)),
        route_responses(*final(doc)) == route_responses(*old(doc)),
        route_requests(*final(doc)) == route_requests(*old(doc)),
{
    doc.components.get_or_insert_with(Components::new).schemas.insert(name.to_string(), object.into());
}

/// `OperationBuilder::new().operation_id(Some(operation_id)).build()`: an
/// operation without responses or request body. Nothing is claimed here of
/// its id.
#[verifier::external_body]
fn new_operation(operation_id: &str) -> (operation: Operation)
    ensures
        response_contents(operation).dom() == Set::<Seq<char>>::empty(),
        request_contents(operation) == Set::<(Seq<char>, Seq<char>, bool)>::empty(),
{
    OperationBuilder::new().operation_id(Some(operation_id)).build()
}

/// `OperationBuilder::summary` and `OperationBuilder::description`: the
/// operation gains `summary` and, where it is given, `description`. The
/// responses and request body are untouched; nothing is claimed here of the
/// texts.
#[verifier::external_body]
fn with_summary(operation: Operation, summary: &str, description: Option<&str>) -> (documented: Operation)
    ensures
        response_contents(documented) == response_contents(operation),
        request_contents(documented) == request_contents(operation),
{
    OperationBuilder::from(operation).summary(Some(summary)).description(description).build()
}

/// `OperationBuilder::response` with a `Response` of `description` and no
/// content: afterwards `status` is documented without content, whatever
/// documented it before; every other response and the request body stay.
/// Nothing is claimed here of the description.
#[verifier::external_body]
fn with_response(operation: Operation, status: &str, description: &str) -> (documented: Operation)
    ensures
        response_contents(documented) == response_contents(operation).insert(
            status@,
            Set::<(Seq<char>, Seq<char>)>::empty(),
        ),
        request_contents(documented) == request_contents(operation),
{
    let response = ResponseBuilder::new().description(description).build();
    OperationBuilder::from(operation).response(status, response).build()
}

/// `OperationBuilder::response` with a `Response` of `description` whose
/// one content, of `media_type`, refers to the component schema `schema`
/// (`Ref::from_schema_name`): afterwards `status` is documented with that
/// content, whatever documented it before; every other response and the
/// request body stay. Nothing is claimed here of the description.
#[verifier::external_body]
fn with_response_body(
    operation: Operation,
    status: &str,
    description: &str,
    media_type: &str,
    schema: &str,
) -> (documented: Operation)
    ensures
        response_contents(documented) == response_contents(operation).insert(
            status@,
            Set::<(Seq<char>, Seq<char>)>::empty().insert((media_type@, schema@)),
        ),
        request_contents(documented) == request_contents(operation),
{
    let content = Content::new(Some(Ref::from_schema_name(schema)));
    let response = ResponseBuilder::new().description(description).content(media_type, content).build();
    OperationBuilder::from(operation).response(status, response).build()
}

/// `OperationBuilder::request_body` with a required body whose one content,
/// of `media_type`, refers to the component schema `schema`
/// (`Ref::from_schema_name`); it replaces any request body before. The
/// responses are untouched.
#[verifier::external_body]
fn with_request_body(operation: Operation, media_type: &str, schema: &str) -> (documented: Operation)
    ensures
        request_contents(documented) == Set::<(Seq<char>, Seq<char>, bool)>::empty().insert(
            (media_type@, schema@, true),
        ),
        response_contents(documented) == response_contents(operation),
{
    let content = Content::new(Some(Ref::from_schema_name(schema)));
    let body = RequestBodyBuilder::new().content(media_type, content).required(Some(Required::True)).build();
    OperationBuilder::from(operation).request_body(Some(body)).build()
}

/// `Object::new()`: an object schema without properties.
#[verifier::external_body]
fn new_object() -> (object: Object)
    ensures
        object_fields(object).dom() == Set::<Seq<char>>::empty(),
{
    Object::new()
}

/// `ObjectBuilder::property` and `ObjectBuilder::required` for the field
/// `name`, a string without description: afterwards `name` is a required
/// `Text` property, whatever it was before; every other property stays.
#[verifier::external_body]
fn with_text_field(object: Object, name: &str) -> (extended: Object)
    ensures
        object_fields(extended) == object_fields(object).insert(
            name@,
            (FieldKind::Text, true, None::<Seq<char>>),
        ),
{
    let field = ObjectBuilder::new().schema_type(Type::String);
    ObjectBuilder::from(object).property(name, field).required(name).build()
}

/// `ObjectBuilder::property` and `ObjectBuilder::required` for the field
/// `name`, a `double` number described by `description` where it is given:
/// afterwards `name` is a required `Number` property with that description,
/// whatever it was before; every other property stays.
#[verifier::external_body]
fn with_number_field(object: Object, name: &str, description: Option<&str>) -> (extended: Object)
    ensures
        object_fields(extended) == object_fields(object).insert(
            name@,
            (FieldKind::Number, true, text_of(description)),
        ),
{
    let format = SchemaFormat::KnownFormat(KnownFormat::Double);
    let field = ObjectBuilder::new().schema_type(Type::Number).format(Some(format))
        .description(description);
    ObjectBuilder::from(object).property(name, field).required(name).build()
}

/// `ObjectBuilder::property` and `ObjectBuilder::required` for the field
/// `name`, an array of strings without description: afterwards `name` is a
/// required `TextList` property, whatever it was before; every other
/// property stays.
#[verifier::external_body]
fn with_text_list_field(object: Object, name: &str) -> (extended: Object)
    ensures
        object_fields(extended) == object_fields(object).insert(
            name@,
            (FieldKind::TextList, true, None::<Seq<char>>),
        ),
{
    let field = ArrayBuilder::new().items(ObjectBuilder::new().schema_type(Type::String));
    ObjectBuilder::from(object).property(name, field).required(name).build()
}

/// Status of an evaluated request.
pub const STATUS_OK: &'static str = "200";
/// Status of a request that a dependency rejected.
pub const STATUS_UNPROCESSABLE: &'static str = "422";
/// Status of a malformed dependency result.
pub const STATUS_INTERNAL_ERROR: &'static str = "500";
/// Status of an unavailable dependency.
pub const STATUS_UNAVAILABLE: &'static str = "503";

/// Name of the schema of `GET /`'s reply.
pub const INFO_SCHEMA: &'static str = "Info";
/// Name of the schema of `POST /`'s request.
pub const EVAL_REQUEST_SCHEMA: &'static str = "EvalRequest";
/// Name of the schema of `POST /`'s successful reply.
pub const PERCENTAGE_OF_RESPONSE_SCHEMA: &'static str = "PercentageOfResponse";

/// Summary of `GET /`.
pub const INDEX_SUMMARY: &'static str = "`GET /` — service identity (srvcs service standard).";

/// Summary of `POST /`.
pub const EVALUATE_SUMMARY: &'static str =
    "`POST /` — compute `percent% of whole` by composing two float primitives.";

/// Description of `POST /`.
pub const EVALUATE_DESCRIPTION: &'static str = "This service owns the *control flow* but delegates every arithmetic step to\nits dependencies, exactly as specified:\n\n1. ask `srvcs-floatdivide` for `frac = percent / 100`;\n2. ask `srvcs-floatmultiply` for `result = frac * whole`.\n\nThe constant `100` is a trivial local literal; the headline operations both\ngo through the dependency services. If a dependency is unreachable it reports\nitself degraded (`503`); if a dependency rejects the input it forwards the\n`422`.";

/// Description of the `result` field of `PercentageOfResponse`.
pub const RESULT_DESCRIPTION: &'static str =
    "`percent% of whole`, as a floating-point number that may be fractional.";

/// `GET /`: service identity, answered `200` with an `Info`.
fn index_operation() -> (operation: Operation)
    ensures
        response_contents(operation) == map![
            STATUS_OK@ => set![(JSON_MEDIA_TYPE@, INFO_SCHEMA@)]
        ],
        request_contents(operation) == Set::<(Seq<char>, Seq<char>, bool)>::empty(),
{
    let operation = new_operation("index");
    let operation = with_summary(operation, INDEX_SUMMARY, None);
    with_response_body(operation, STATUS_OK, "", JSON_MEDIA_TYPE, INFO_SCHEMA)
}

/// `POST /`: compute `percent% of whole` from an `EvalRequest`, answered with
/// a `PercentageOfResponse` or one of the three failures.
fn evaluate_operation() -> (operation: Operation)
    ensures
        response_contents(operation) == map![
            STATUS_OK@ => set![(JSON_MEDIA_TYPE@, PERCENTAGE_OF_RESPONSE_SCHEMA@)],
            STATUS_UNPROCESSABLE@ => Set::empty(),
            STATUS_INTERNAL_ERROR@ => Set::empty(),
            STATUS_UNAVAILABLE@ => Set::empty()
        ],
        request_contents(operation) == set![(JSON_MEDIA_TYPE@, EVAL_REQUEST_SCHEMA@, true)],
{
    let operation = new_operation("evaluate");
    let operation = with_summary(operation, EVALUATE_SUMMARY, Some(EVALUATE_DESCRIPTION));
    let operation = with_request_body(operation, JSON_MEDIA_TYPE, EVAL_REQUEST_SCHEMA);
    let operation = with_response_body(
        operation,
        STATUS_OK,
        "",
        JSON_MEDIA_TYPE,
        PERCENTAGE_OF_RESPONSE_SCHEMA,
    );
    let operation = with_response(
        operation,
        STATUS_UNPROCESSABLE,
        "a dependency rejected the input (forwarded)",
    );
    let operation = with_response(
        operation,
        STATUS_INTERNAL_ERROR,
        "a dependency returned a malformed result",
    );
    with_response(operation, STATUS_UNAVAILABLE, "a dependency is unavailable")
}

/// Fields of `Info`: two required strings and a required list of strings.
pub open spec fn info_fields() -> FieldTable {
    map![
        "service"@ => (FieldKind::Text, true, None),
        "concern"@ => (FieldKind::Text, true, None),
        "depends_on"@ => (FieldKind::TextList, true, None)
    ]
}

/// Fields of `EvalRequest`: two required `double` numbers.
pub open spec fn eval_request_fields() -> FieldTable {
    map![
        "percent"@ => (FieldKind::Number, true, None),
        "whole"@ => (FieldKind::Number, true, None)
    ]
}

/// Fields of `PercentageOfResponse`: three required `double` numbers, the
/// result described.
pub open spec fn percentage_of_response_fields() -> FieldTable {
    map![
        "percent"@ => (FieldKind::Number, true, None),
        "whole"@ => (FieldKind::Number, true, None),
        "result"@ => (FieldKind::Number, true, Some(RESULT_DESCRIPTION@))
    ]
}

/// Schema of `Info`.
fn info_schema() -> (object: Object)
    ensures
        object_fields(object) == info_fields(),
{
    let object = new_object();
    let object = with_text_field(object, "service");
    let object = with_text_field(object, "concern");
    with_text_list_field(object, "depends_on")
}

/// Schema of `EvalRequest`.
fn eval_request_schema() -> (object: Object)
    ensures
        object_fields(object) == eval_request_fields(),
{
    let object = new_object();
    let object = with_number_field(object, "percent", None);
    with_number_field(object, "whole", None)
}

/// Schema of `PercentageOfResponse`.
fn percentage_of_response_schema() -> (object: Object)
    ensures
        object_fields(object) == percentage_of_response_fields(),
{
    let object = new_object();
    let object = with_number_field(object, "percent", None);
    let object = with_number_field(object, "whole", None);
    with_number_field(object, "result", Some(RESULT_DESCRIPTION))
}

/// The OpenAPI document of this service.
pub struct ApiDoc;

impl ApiDoc {
    /// The OpenAPI document: `GET /`, answered `200` with an `Info`;
    /// `POST /`, taking a required `EvalRequest` and answered `200` with a
    /// `PercentageOfResponse`, or `422`, `500` or `503`; and the schemas
    /// `Info`, `EvalRequest` and `PercentageOfResponse` with their fields.
    pub fn openapi() -> (doc: OpenApi)
        ensures
            route_responses(doc) == map![
                (ROOT@, Verb::Get) => map![STATUS_OK@ => set![(JSON_MEDIA_TYPE@, INFO_SCHEMA@)]],
                (ROOT@, Verb::Post) => map![
                    STATUS_OK@ => set![(JSON_MEDIA_TYPE@, PERCENTAGE_OF_RESPONSE_SCHEMA@)],
                    STATUS_UNPROCESSABLE@ => Set::empty(),
                    STATUS_INTERNAL_ERROR@ => Set::empty(),
                    STATUS_UNAVAILABLE@ => Set::empty()
                ]
            ],
            route_requests(doc) == map![
                (ROOT@, Verb::Get) => Set::empty(),
                (ROOT@, Verb::Post) => set![(JSON_MEDIA_TYPE@, EVAL_REQUEST_SCHEMA@, true)]
            ],
            route_responses(doc) == map![
                ("/"@, Verb::Get) => map!["200"@ => set![("application/json"@, "Info"@)]],
                ("/"@, Verb::Post) => map![
                    "200"@ => set![("application/json"@, "PercentageOfResponse"@)],
                    "422"@ => Set::empty(),
                    "500"@ => Set::empty(),
                    "503"@ => Set::empty()
                ]
            ],
            route_requests(doc) == map![
                ("/"@, Verb::Get) => Set::empty(),
                ("/"@, Verb::Post) => set![("application/json"@, "EvalRequest"@, true)]
            ],
            schema_fields(doc) == map![
                "Info"@ => info_fields(),
                "EvalRequest"@ => eval_request_fields(),
                "PercentageOfResponse"@ => percentage_of_response_fields()
            ],
            schema_fields(doc) == map![
                INFO_SCHEMA@ => info_fields(),
                EVAL_REQUEST_SCHEMA@ => eval_request_fields(),
                PERCENTAGE_OF_RESPONSE_SCHEMA@ => percentage_of_response_fields()
            ],
    {
        let mut doc = new_document(SERVICE, API_VERSION);
        add_operation(&mut doc, ROOT, Verb::Get, index_operation());
        add_operation(&mut doc, ROOT, Verb::Post, evaluate_operation());
        add_schema(&mut doc, INFO_SCHEMA, info_schema());
        add_schema(&mut doc, EVAL_REQUEST_SCHEMA, eval_request_schema());
        add_schema(&mut doc, PERCENTAGE_OF_RESPONSE_SCHEMA, percentage_of_response_schema());
        doc
    }
}

} // verus!

//! What holds of every body and of every request, proved once for all
//! actions.

use crate::body::Fields;
use crate::client::CKAN;
use crate::json::Json;
use crate::request::{CkanError, PayloadModel, Request};
use vstd::prelude::*;

verus! {

/// Whether the argument at `i` supplies a value for the field `name`.
pub open spec fn supplies(args: Seq<(Seq<char>, Option<Json>)>, i: int, name: Seq<char>) -> bool {
    0 <= i < args.len() && args[i].0 == name && args[i].1 is Some
}

/// A field stands in the body if and only if some argument supplied a value
/// for it, and it then holds the value that was supplied last. An argument
/// that is absent leaves neither a key nor a `null`.
pub proof fn law_present_iff_supplied(args: Seq<(Seq<char>, Option<Json>)>, name: Seq<char>)
    ensures
        Fields::of(args).has(name) <==> exists|i: int| supplies(args, i, name),
        Fields::of(args).has(name) ==> exists|i: int|
            supplies(args, i, name) && args[i].1 == Some(Fields::of(args).map[name]) && forall|
                j: int,
            | i < j ==> !supplies(args, j, name),
    decreases args.len(),
{
    if args.len() > 0 {
        let front = args.drop_last();
        let n = args.len() - 1;
        law_present_iff_supplied(front, name);
        assert forall|i: int| supplies(front, i, name) implies supplies(args, i, name) by {
            assert(front[i] == args[i]);
        }
        assert forall|i: int| supplies(args, i, name) && i != n implies supplies(front, i, name) by {
            assert(front[i] == args[i]);
        }
        if supplies(args, n, name) {
            assert(Fields::of(args).map[name] == args[n].1->Some_0);
            assert(forall|j: int| n < j ==> !supplies(args, j, name));
        } else if Fields::of(args).has(name) {
            assert(Fields::of(front).has(name));
            assert(Fields::of(args).map[name] == Fields::of(front).map[name]);
            let i = choose|i: int|
                supplies(front, i, name) && front[i].1 == Some(Fields::of(front).map[name])
                    && forall|j: int| i < j ==> !supplies(front, j, name);
            assert(front[i] == args[i]);
            assert(supplies(args, i, name));
            assert forall|j: int| i < j implies !supplies(args, j, name) by {
                if j < n {
                    assert(front[j] == args[j]);
                    assert(!supplies(front, j, name));
                }
            }
        }
    }
}

/// One more argument at the end of a list is one more step of the chain.
pub proof fn law_of_push(args: Seq<(Seq<char>, Option<Json>)>, name: Seq<char>, value: Option<Json>)
    ensures
        Fields::of(args.push((name, value))) == Fields::of(args).opt(name, value),
{
    let longer = args.push((name, value));
    assert(longer.drop_last() =~= args);
}

/// An absent argument changes nothing, and a supplied one sets exactly its
/// own field.
pub proof fn law_opt_touches_one_field(
    fields: Fields,
    name: Seq<char>,
    value: Option<Json>,
    other: Seq<char>,
)
    ensures
        value is None ==> fields.opt(name, value) == fields,
        value is Some ==> fields.opt(name, value).has(name) && fields.opt(name, value).map[name]
            == value->Some_0,
        other != name ==> fields.opt(name, value).has(other) == fields.has(other),
        other != name && fields.has(other) ==> fields.opt(name, value).map[other]
            == fields.map[other],
{
}

/// Where the caller's extra fields and a named argument set the same field,
/// the extra field stays. A field that the extras do not name is kept as it
/// was, and no field comes from anywhere else.
pub proof fn law_extra_fields_win(fields: Fields, extra: Map<Seq<char>, Json>, name: Seq<char>)
    ensures
        ({
            let merged = fields.merge(Some(Json::Object(extra)));
            &&& merged.has(name) <==> fields.has(name) || extra.dom().contains(name)
            &&& extra.dom().contains(name) ==> merged.map[name] == extra[name]
            &&& !extra.dom().contains(name) && fields.has(name) ==> merged.map[name]
                == fields.map[name]
        }),
{
}

/// Extra fields that are absent, or that are no object, leave the body as it
/// is.
pub proof fn law_extra_fields_need_an_object(fields: Fields, extra: Option<Json>)
    requires
        !(extra matches Some(Json::Object(_))),
    ensures
        fields.merge(extra) == fields,
{
}

/// Every request of a client presents the client's token, unchanged, and a
/// client without a token sends no `Authorization` header: the header of each
/// planned request is exactly the token of the client.
pub proof fn law_authorization_is_the_token(
    ckan: CKAN,
    url: Seq<char>,
    action: Seq<char>,
    content: Json,
    fields: Fields,
    body: Option<Fields>,
    upload: Option<std::path::PathBuf>,
    r: Result<Request, CkanError>,
)
    ensures
        ckan.get_plan(url).authorization == ckan@.token,
        ckan.json_plan(url, content).authorization == ckan@.token,
        ckan.read_plan(action).authorization == ckan@.token,
        ckan.post_plan(action, fields).authorization == ckan@.token,
        ckan.post_outcome(url, body, upload, r) && r is Ok ==> r->Ok_0@.authorization
            == ckan@.token,
        ckan.upload_outcome(action, fields, upload, r) && r is Ok ==> r->Ok_0@.authorization
            == ckan@.token,
{
}

/// A request carries a form exactly when a file is supplied. The form then
/// has the file under `upload` and every field of the body as a text part;
/// without a file the whole body is one JSON value.
pub proof fn law_file_selects_form(
    ckan: CKAN,
    url: Seq<char>,
    body: Fields,
    upload: Option<std::path::PathBuf>,
    r: Result<Request, CkanError>,
)
    requires
        ckan.post_outcome(url, Some(body), upload, r),
    ensures
        upload is None ==> r is Ok && r->Ok_0@.payload == PayloadModel::Json(Json::Object(body.map)),
        upload is Some && r is Ok ==> r->Ok_0@.payload == (PayloadModel::Multipart {
            fields: body.texts(),
            upload: upload->Some_0,
        }) && body.texts().dom() == body.map.dom() && forall|k: Seq<char>| #[trigger]
            body.has(k) ==> body.map[k] == Json::Text(body.texts()[k]),
        upload is Some ==> (r is Ok <==> body.is_flat()),
{
    if upload is Some && r is Ok {
        assert(body.texts().dom() =~= body.map.dom());
    }
}

} // verus!

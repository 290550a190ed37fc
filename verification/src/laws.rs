//! What holds of the service as a whole.

use vstd::prelude::*;
use crate::decimal::{decimal_text, lemma_decimal_reads_back};
use crate::request::{
    id_text, identifier, method_of, method_text, path_id, path_of, route_of, Method, Route,
};
use crate::service::{
    plan_of, possible, response_of, OutcomeView, BAD_REQUEST, INTERNAL_SERVER_ERROR, NOT_FOUND,
    OK_RESPONSE,
};
use crate::text::{
    first_char, first_space, first_stop, is_space, lemma_first_char_bounds, lemma_first_char_is,
    lemma_first_space_bounds, lemma_first_stop_bounds, lemma_first_stop_is, starts_with,
};

verus! {

/// A request begins with a method, a space and the start of a path exactly
/// when its first word is that method and its path begins in that way.
proof fn lemma_method_and_path(request: Seq<char>, method: Seq<char>, start: Seq<char>)
    requires
        forall|i: int| 0 <= i < method.len() ==> method[i] != ' ',
        start.len() > 0,
        forall|i: int| 0 <= i < start.len() ==> !is_space(start[i]),
    ensures
        starts_with(request, method + seq![' '] + start) <==> method_text(request) == method
            && starts_with(path_of(request), start),
{
    let whole = method + seq![' '] + start;
    let n = method.len() as int;
    let m = start.len() as int;
    lemma_first_char_bounds(request, ' ', 0);
    if starts_with(request, whole) {
        assert forall|i: int| 0 <= i < n + 1 + m implies request[i] == whole[i] by {
            assert(request.subrange(0, n + 1 + m)[i] == request[i]);
        }
        assert forall|i: int| 0 <= i < n implies request[i] != ' ' by {
            assert(whole[i] == method[i]);
        }
        assert(whole[n] == ' ');
        lemma_first_char_is(request, ' ', 0, n);
        assert(method_text(request) =~= method) by {
            assert forall|i: int| 0 <= i < n implies request.subrange(0, n)[i] == method[i] by {
                assert(whole[i] == method[i]);
            }
        }
        lemma_first_space_bounds(request, n + 1);
        let end = first_space(request, n + 1);
        if end < n + 1 + m {
            assert(whole[end] == start[end - n - 1]);
            assert(!is_space(request[end]));
        }
        assert(path_of(request).subrange(0, m) =~= start) by {
            assert forall|j: int| 0 <= j < m implies path_of(request).subrange(0, m)[j]
                == start[j] by {
                assert(whole[n + 1 + j] == start[j]);
            }
        }
    }
    if method_text(request) == method && starts_with(path_of(request), start) {
        let space = first_char(request, ' ', 0);
        assert(method_text(request).len() == space);
        assert(space < request.len());
        lemma_first_space_bounds(request, space + 1);
        let path = path_of(request);
        assert(request.subrange(0, n + 1 + m) =~= whole) by {
            assert forall|i: int| 0 <= i < n + 1 + m implies request.subrange(0, n + 1 + m)[i]
                == whole[i] by {
                if i < n {
                    assert(method_text(request)[i] == request[i]);
                } else if i > n {
                    assert(path.subrange(0, m)[i - n - 1] == path[i - n - 1]);
                    assert(path[i - n - 1] == request[i]);
                }
            }
        }
    }
}

/// A route is a method and the start of a path. The router tests the text of
/// a request as it came; this says what its choice means for the request as
/// it is read.
pub proof fn law_route_is_method_and_path(request: Seq<char>)
    ensures
        route_of(request) == Route::Create <==> method_of(request) == Method::Post && starts_with(
            path_of(request),
            "/users"@,
        ),
        route_of(request) == Route::List <==> method_of(request) == Method::Get && starts_with(
            path_of(request),
            "/users"@,
        ),
        route_of(request) == Route::Update <==> method_of(request) == Method::Put && starts_with(
            path_of(request),
            "/user/"@,
        ),
        route_of(request) == Route::Delete <==> method_of(request) == Method::Delete
            && starts_with(path_of(request), "/user/"@),
{
    reveal_strlit("GET");
    reveal_strlit("POST");
    reveal_strlit("PUT");
    reveal_strlit("DELETE");
    reveal_strlit("/users");
    reveal_strlit("/user/");
    reveal_strlit("POST /users");
    reveal_strlit("GET /users");
    reveal_strlit("PUT /user/");
    reveal_strlit("DELETE /user/");
    assert("POST /users"@ =~= "POST"@ + seq![' '] + "/users"@);
    assert("GET /users"@ =~= "GET"@ + seq![' '] + "/users"@);
    assert("PUT /user/"@ =~= "PUT"@ + seq![' '] + "/user/"@);
    assert("DELETE /user/"@ =~= "DELETE"@ + seq![' '] + "/user/"@);
    lemma_method_and_path(request, "POST"@, "/users"@);
    lemma_method_and_path(request, "GET"@, "/users"@);
    lemma_method_and_path(request, "PUT"@, "/user/"@);
    lemma_method_and_path(request, "DELETE"@, "/user/"@);
    assert("GET"@[0] != "PUT"@[0]);
}

/// A text that differs from a prefix at some place does not begin with it.
proof fn lemma_begins_otherwise(s: Seq<char>, prefix: Seq<char>, at: int)
    requires
        0 <= at < prefix.len(),
        at < s.len() ==> s[at] != prefix[at],
    ensures
        !starts_with(s, prefix),
{
    if starts_with(s, prefix) {
        assert(s.subrange(0, prefix.len() as int)[at] == s[at]);
    }
}

/// What follows the method and the start of the path in a request plays no
/// part in its route.
pub proof fn law_route_ignores_the_rest(rest: Seq<char>)
    ensures
        route_of("POST /users"@ + rest) == Route::Create,
        route_of("GET /users"@ + rest) == Route::List,
        route_of("PUT /user/"@ + rest) == Route::Update,
        route_of("DELETE /user/"@ + rest) == Route::Delete,
{
    reveal_strlit("POST /users");
    reveal_strlit("GET /users");
    reveal_strlit("PUT /user/");
    reveal_strlit("DELETE /user/");
    let create = "POST /users"@;
    let list = "GET /users"@;
    let update = "PUT /user/"@;
    let delete = "DELETE /user/"@;
    assert((create + rest).subrange(0, create.len() as int) =~= create);
    assert((list + rest).subrange(0, list.len() as int) =~= list);
    assert((update + rest).subrange(0, update.len() as int) =~= update);
    assert((delete + rest).subrange(0, delete.len() as int) =~= delete);
    lemma_begins_otherwise(list + rest, create, 0);
    lemma_begins_otherwise(update + rest, create, 1);
    lemma_begins_otherwise(update + rest, list, 0);
    lemma_begins_otherwise(delete + rest, create, 0);
    lemma_begins_otherwise(delete + rest, list, 0);
    lemma_begins_otherwise(delete + rest, update, 0);
}

/// A request whose path begins neither with `/users` nor with `/user/` is
/// answered `404 NOT FOUND`, whatever its method, its body and the store.
pub proof fn law_unknown_path_is_not_found(request: Seq<char>)
    requires
        !starts_with(path_of(request), "/users"@),
        !starts_with(path_of(request), "/user/"@),
    ensures
        route_of(request) == Route::NotFound,
        forall|outcome: OutcomeView| #[trigger]
            possible(plan_of(request), outcome) ==> response_of(outcome) == (
                "HTTP/1.1 404 NOT FOUND\r\n\r\n"@,
                "404 Not Found"@,
            ),
{
    law_route_is_method_and_path(request);
}

/// A request that a route matches is never answered `404 NOT FOUND`: an
/// update or a delete of a user that the store does not hold is answered like
/// one of a user that it holds.
pub proof fn law_routed_is_never_not_found(request: Seq<char>)
    requires
        route_of(request) != Route::NotFound,
    ensures
        forall|outcome: OutcomeView| #[trigger]
            possible(plan_of(request), outcome) ==> response_of(outcome).0 != NOT_FOUND@,
{
    reveal_strlit("HTTP/1.1 200 OK\r\nContent-Type: application/json\r\n\r\n");
    reveal_strlit("HTTP/1.1 400 BAD REQUEST\r\n\r\n");
    reveal_strlit("HTTP/1.1 404 NOT FOUND\r\n\r\n");
    reveal_strlit("HTTP/1.1 500 INTERNAL SERVER ERROR\r\n\r\n");
    assert(OK_RESPONSE@[9] != NOT_FOUND@[9]);
    assert(BAD_REQUEST@[11] != NOT_FOUND@[11]);
    assert(INTERNAL_SERVER_ERROR@[9] != NOT_FOUND@[9]);
}

/// In a request that begins with a method of `m` letters, a space and
/// `/user/`, the identifier is the same whether it is looked for in the
/// request or in its path.
proof fn lemma_identifier_in_path(request: Seq<char>, m: int)
    requires
        0 <= m,
        m + 7 <= request.len(),
        starts_with(request, request.subrange(0, m) + " /user/"@),
        forall|i: int| 0 <= i < m ==> request[i] != ' ' && request[i] != '/',
    ensures
        id_text(request) == id_text(path_of(request)),
{
    reveal_strlit(" /user/");
    let head = request.subrange(0, m) + " /user/"@;
    assert(head.len() == m + 7);
    assert forall|i: int| 0 <= i < m + 7 implies request[i] == head[i] by {
        assert(request.subrange(0, m + 7)[i] == request[i]);
    }
    assert(head[m] == ' ' && head[m + 1] == '/' && head[m + 2] == 'u' && head[m + 3] == 's'
        && head[m + 4] == 'e' && head[m + 5] == 'r' && head[m + 6] == '/');
    lemma_first_char_is(request, ' ', 0, m);
    lemma_first_char_is(request, '/', 0, m + 1);
    lemma_first_char_is(request, '/', m + 2, m + 6);
    lemma_first_space_bounds(request, m + 1);
    let end = first_space(request, m + 1);
    if end < m + 7 {
        assert(!is_space(request[end]));
    }
    let path = path_of(request);
    assert(path =~= request.subrange(m + 1, end));
    assert forall|k: int| 0 <= k < path.len() implies path[k] == request[m + 1 + k] by {}
    lemma_first_char_is(path, '/', 0, 0);
    lemma_first_char_is(path, '/', 1, 5);
    lemma_first_stop_bounds(request, m + 7);
    let stop = first_stop(request, m + 7);
    if stop > end {
        assert(is_space(request[end]));
    }
    assert forall|k: int| 6 <= k < stop - m - 1 implies path[k] != '/' && !is_space(path[k]) by {
        assert(path[k] == request[m + 1 + k]);
    }
    if stop < end {
        assert(path[stop - m - 1] == request[stop]);
    }
    lemma_first_stop_is(path, 6, stop - m - 1);
    assert(path.subrange(6, stop - m - 1) =~= request.subrange(m + 7, stop));
}

/// In a request that is routed to an update or a delete, the identifier that
/// `get_id` reads out of the request is the one that it reads out of the
/// path: nothing behind the path is ever taken for it.
pub proof fn law_identifier_is_in_the_path(request: Seq<char>)
    requires
        route_of(request) == Route::Update || route_of(request) == Route::Delete,
    ensures
        id_text(request) == id_text(path_of(request)),
        path_id(request) == identifier(id_text(request)),
{
    reveal_strlit("POST /users");
    reveal_strlit("GET /users");
    reveal_strlit("PUT /user/");
    reveal_strlit("DELETE /user/");
    reveal_strlit(" /user/");
    if starts_with(request, "PUT /user/"@) {
        assert forall|i: int| 0 <= i < 10 implies request[i] == "PUT /user/"@[i] by {
            assert(request.subrange(0, 10)[i] == request[i]);
        }
        assert(request.subrange(0, 10) =~= request.subrange(0, 3) + " /user/"@);
        lemma_identifier_in_path(request, 3);
    } else {
        assert(starts_with(request, "DELETE /user/"@));
        assert forall|i: int| 0 <= i < 13 implies request[i] == "DELETE /user/"@[i] by {
            assert(request.subrange(0, 13)[i] == request[i]);
        }
        assert(request.subrange(0, 13) =~= request.subrange(0, 6) + " /user/"@);
        lemma_identifier_in_path(request, 6);
    }
}

/// The identifier that a list of users shows for a record names that record
/// in a path: written after `/user/`, it is read back as it was.
pub proof fn law_listed_identifier_reads_back(id: i64)
    ensures
        id_text("/user/"@ + decimal_text(id as int)) == decimal_text(id as int),
        identifier(decimal_text(id as int)) == Some(id),
{
    reveal_strlit("/user/");
    let written = decimal_text(id as int);
    let path = "/user/"@ + written;
    lemma_decimal_reads_back(id as int);
    lemma_first_char_is(path, '/', 0, 0);
    lemma_first_char_is(path, '/', 1, 5);
    lemma_first_stop_bounds(path, 6);
    let end = first_stop(path, 6);
    if end < path.len() {
        assert(path[end] == written[end - 6]);
    }
    assert(path.subrange(6, path.len() as int) =~= written);
}

} // verus!

//! What holds of the crate as a whole, proved from the definitions that its
//! contracts are written in.

use crate::error::SubmitErrorView;
use crate::exchange::{
    batches_target, get_of, post_of, query_plan, status_reading, status_target, submission_plan,
    ReplyView, RequestView, SERVICE_UNAVAILABLE,
};
use crate::json::{
    batch_status_of, invalid_transaction_of, link_of, status_response_of, JsonView,
};
use crate::status::{
    batch_forms, committed, invalid, transaction_forms, BatchStatusView, InvalidTransactionView,
    StatusResponseView,
};
use crate::text::{decimal, digit_char, digit_value, is_digit, numeral_value};
use crate::url::{http, uri_scheme};
use vstd::prelude::*;

verus! {

/// A target with a scheme other than `http` is refused by both operations, and
/// the refusal names that scheme and quotes the caller's URL. No request comes
/// of it, so nothing is sent.
pub proof fn other_scheme_is_refused(
    url: Seq<char>,
    payload: Seq<u8>,
    wait: nat,
    scheme: Seq<char>,
)
    requires
        scheme != http(),
    ensures
        uri_scheme(batches_target(url)) == Ok::<Option<Seq<char>>, Seq<char>>(Some(scheme))
            ==> submission_plan(url, payload) == Err::<RequestView, SubmitErrorView>(
            SubmitErrorView::UnsupportedScheme { scheme, url },
        ),
        uri_scheme(status_target(url, wait)) == Ok::<Option<Seq<char>>, Seq<char>>(Some(scheme))
            ==> query_plan(url, wait) == Err::<RequestView, SubmitErrorView>(
            SubmitErrorView::UnsupportedScheme { scheme, url },
        ),
{
}

/// A target that reads as a URI without a scheme is refused by both
/// operations for want of one.
pub proof fn missing_scheme_is_refused(url: Seq<char>, payload: Seq<u8>, wait: nat)
    ensures
        uri_scheme(batches_target(url)) == Ok::<Option<Seq<char>>, Seq<char>>(None)
            ==> submission_plan(url, payload) == Err::<RequestView, SubmitErrorView>(
            SubmitErrorView::MissingScheme { url },
        ),
        uri_scheme(status_target(url, wait)) == Ok::<Option<Seq<char>>, Seq<char>>(None)
            ==> query_plan(url, wait) == Err::<RequestView, SubmitErrorView>(
            SubmitErrorView::MissingScheme { url },
        ),
{
}

/// A request is planned only for a target with the scheme `http`, and it is
/// then the one request of the operation: the post of the whole payload, or
/// the get of the status target.
pub proof fn request_means_http(url: Seq<char>, payload: Seq<u8>, wait: nat)
    ensures
        submission_plan(url, payload) is Ok ==> uri_scheme(batches_target(url)) == Ok::<
            Option<Seq<char>>,
            Seq<char>,
        >(Some(http())) && submission_plan(url, payload) == Ok::<RequestView, SubmitErrorView>(
            post_of(batches_target(url), payload),
        ),
        query_plan(url, wait) is Ok ==> uri_scheme(status_target(url, wait)) == Ok::<
            Option<Seq<char>>,
            Seq<char>,
        >(Some(http())) && query_plan(url, wait) == Ok::<RequestView, SubmitErrorView>(
            get_of(status_target(url, wait)),
        ),
{
}

/// A refusal of a URL says why and ends with the URL as the caller gave it.
pub proof fn url_refusal_quotes_the_url(error: SubmitErrorView)
    ensures
        error matches SubmitErrorView::InvalidUrl { reason, url } ==> {
            let said = "Invalid URL: "@;
            &&& url.is_suffix_of(error.message())
            &&& error.message().subrange(said.len() as int, (said.len() + reason.len()) as int)
                == reason
        },
        error matches SubmitErrorView::UnsupportedScheme { scheme, url } ==> {
            let said = "Unsupported scheme ("@;
            &&& url.is_suffix_of(error.message())
            &&& error.message().subrange(said.len() as int, (said.len() + scheme.len()) as int)
                == scheme
        },
        error matches SubmitErrorView::MissingScheme { url } ==> url.is_suffix_of(error.message()),
{
}

/// A numeral is one digit or more, all of them digits, and starts with zero
/// only where it writes zero itself.
pub proof fn decimal_is_a_numeral(n: nat)
    ensures
        decimal(n).len() >= 1,
        forall|i: int| 0 <= i < decimal(n).len() ==> is_digit(#[trigger] decimal(n)[i]),
        n > 0 ==> decimal(n)[0] != '0',
    decreases n,
{
    if n >= 10 {
        decimal_is_a_numeral(n / 10);
    }
}

/// A numeral stands for the number it was written for.
pub proof fn decimal_reads_back(n: nat)
    ensures
        numeral_value(decimal(n)) == n,
    decreases n,
{
    let numeral = decimal(n);
    let last: nat = if n < 10 {
        n
    } else {
        n % 10
    };
    assert(digit_value(numeral.last()) == last);
    if n < 10 {
        assert(numeral_value(numeral.drop_last()) == 0);
    } else {
        decimal_reads_back(n / 10);
        assert(numeral.drop_last() =~= decimal(n / 10));
    }
}

/// The status target is the status link with the wait parameter after it, and
/// it always has a query: the parameter joins the one that is there, or
/// starts one.
pub proof fn status_target_keeps_the_link(url: Seq<char>, wait: nat)
    ensures
        url.is_prefix_of(status_target(url, wait)),
        status_target(url, wait).contains('?'),
        url.contains('?') ==> status_target(url, wait) == url + "&wait="@ + decimal(wait),
        !url.contains('?') ==> status_target(url, wait) == url + "?wait="@ + decimal(wait),
{
    reveal_strlit("&");
    reveal_strlit("?");
    reveal_strlit("wait=");
    reveal_strlit("&wait=");
    reveal_strlit("?wait=");
    let target = status_target(url, wait);
    if !url.contains('?') {
        assert(target[url.len() as int] == '?');
        assert(target =~= url + "?wait="@ + decimal(wait));
    }
}

/// Members that a reading does not ask for change nothing: an answer may
/// carry more than is read.
pub proof fn other_members_are_passed_over(
    members: Map<Seq<char>, JsonView>,
    key: Seq<char>,
    value: JsonView,
)
    ensures
        ({
            let more = JsonView::Object(members.insert(key, value));
            let less = JsonView::Object(members);
            &&& key != "link"@ ==> link_of(more) == link_of(less)
            &&& key != "link"@ && key != "data"@ ==> status_response_of(more)
                == status_response_of(less)
            &&& key != "id"@ && key != "status"@ && key != "invalid_transactions"@
                ==> batch_status_of(more) == batch_status_of(less)
            &&& key != "id"@ && key != "message"@ ==> invalid_transaction_of(more)
                == invalid_transaction_of(less)
        }),
{
}

/// An answer with the status "service unavailable" is read as that failure
/// whatever its body holds.
pub proof fn unavailable_whatever_the_body(body: Seq<u8>)
    ensures
        status_reading(ReplyView::Answered { status: SERVICE_UNAVAILABLE as nat, body }) == Err::<
            StatusResponseView,
            SubmitErrorView,
        >(SubmitErrorView::ServiceUnavailable),
{
}

/// A response without batches has settled.
pub proof fn no_batches_is_finished(response: StatusResponseView)
    requires
        response.data.len() == 0,
    ensures
        response.is_finished(),
{
}

/// One rejected batch settles the outcome, whatever the others say.
pub proof fn rejected_batch_settles(response: StatusResponseView, at: int)
    requires
        0 <= at < response.data.len(),
        response.data[at].status == invalid(),
    ensures
        response.is_finished(),
{
}

/// While no batch is rejected, one batch that is not committed keeps the
/// outcome open.
pub proof fn uncommitted_batch_keeps_open(response: StatusResponseView, at: int)
    requires
        0 <= at < response.data.len(),
        response.data[at].status != committed(),
        forall|i: int| 0 <= i < response.data.len() ==> response.data[i].status != invalid(),
    ensures
        !response.is_finished(),
{
}

/// The written form cannot be read back: texts are quoted but not escaped, so
/// a quote inside an id moves the seam between id and message. Here two
/// refused transactions that differ are written alike, and so are the two
/// responses that differ in nothing else.
pub proof fn written_form_is_ambiguous(
    id: Seq<char>,
    middle: Seq<char>,
    message: Seq<char>,
    batch: BatchStatusView,
    link: Seq<char>,
)
    ensures
        ({
            let seam = "\", \"message\": \""@;
            let one = InvalidTransactionView { id: id + seam + middle, message };
            let other = InvalidTransactionView { id, message: middle + seam + message };
            let first = StatusResponseView {
                data: seq![BatchStatusView { invalid_transactions: seq![one], ..batch }],
                link,
            };
            let second = StatusResponseView {
                data: seq![BatchStatusView { invalid_transactions: seq![other], ..batch }],
                link,
            };
            &&& one != other
            &&& one.written() == other.written()
            &&& first != second
            &&& first.written() == second.written()
        }),
{
    reveal_strlit("\", \"message\": \"");
    let seam = "\", \"message\": \""@;
    let one = InvalidTransactionView { id: id + seam + middle, message };
    let other = InvalidTransactionView { id, message: middle + seam + message };
    assert(one.written() == other.written());
    let first_batch = BatchStatusView { invalid_transactions: seq![one], ..batch };
    let second_batch = BatchStatusView { invalid_transactions: seq![other], ..batch };
    assert(transaction_forms(seq![one]) == transaction_forms(seq![other]));
    assert(first_batch.written() == second_batch.written());
    let first = StatusResponseView { data: seq![first_batch], link };
    let second = StatusResponseView { data: seq![second_batch], link };
    assert(batch_forms(first.data) == batch_forms(second.data));
    assert(first.data[0] != second.data[0]);
}

} // verus!

//! The payloads that the ledger returns: the link to a submission and the
//! status of the batches asked about.
//!
//! Every type has a written form for logs and for people. That form quotes its
//! texts without escaping them, so it cannot be read back into the value it
//! came from: see [`written_form_is_ambiguous`].

use crate::text::{join, joined, texts};
use vstd::prelude::*;

verus! {

/// The answer to a submission: where to ask for its status.
#[derive(Debug, PartialEq)]
pub struct Link {
    pub link: String,
}

/// One transaction that the ledger refused, with the reason it gave.
#[derive(Debug, PartialEq)]
pub struct InvalidTransaction {
    pub id: String,
    pub message: String,
}

/// The outcome of one batch. `invalid_transactions` is filled only where the
/// status reports a failure.
#[derive(Debug, PartialEq)]
pub struct BatchStatus {
    pub id: String,
    pub status: String,
    pub invalid_transactions: Vec<InvalidTransaction>,
}

/// The answer to one status query: the batches asked about, in order, and the
/// link under which the same query can be asked again.
#[derive(Debug, PartialEq)]
pub struct StatusResponse {
    pub data: Vec<BatchStatus>,
    pub link: String,
}

/// What a [`Link`] holds.
pub struct LinkView {
    pub link: Seq<char>,
}

/// What an [`InvalidTransaction`] holds.
pub struct InvalidTransactionView {
    pub id: Seq<char>,
    pub message: Seq<char>,
}

/// What a [`BatchStatus`] holds.
pub struct BatchStatusView {
    pub id: Seq<char>,
    pub status: Seq<char>,
    pub invalid_transactions: Seq<InvalidTransactionView>,
}

/// What a [`StatusResponse`] holds.
pub struct StatusResponseView {
    pub data: Seq<BatchStatusView>,
    pub link: Seq<char>,
}

/// The status text of a batch that the ledger has committed.
pub open spec fn committed() -> Seq<char> {
    "COMMITTED"@
}

/// The status text of a batch that the ledger has rejected.
pub open spec fn invalid() -> Seq<char> {
    "INVALID"@
}

/// What each of `transactions` holds, in order.
pub open spec fn transaction_views(transactions: Seq<InvalidTransaction>) -> Seq<
    InvalidTransactionView,
> {
    Seq::new(transactions.len(), |i: int| transactions[i]@)
}

/// What each of `batches` holds, in order.
pub open spec fn batch_views(batches: Seq<BatchStatus>) -> Seq<BatchStatusView> {
    Seq::new(batches.len(), |i: int| batches[i]@)
}

/// The written forms of `transactions`, in order.
pub open spec fn transaction_forms(transactions: Seq<InvalidTransactionView>) -> Seq<Seq<char>> {
    Seq::new(transactions.len(), |i: int| transactions[i].written())
}

/// The written forms of `batches`, in order.
pub open spec fn batch_forms(batches: Seq<BatchStatusView>) -> Seq<Seq<char>> {
    Seq::new(batches.len(), |i: int| batches[i].written())
}

impl View for Link {
    type V = LinkView;

    open spec fn view(&self) -> LinkView {
        LinkView { link: self.link@ }
    }
}

impl View for InvalidTransaction {
    type V = InvalidTransactionView;

    open spec fn view(&self) -> InvalidTransactionView {
        InvalidTransactionView { id: self.id@, message: self.message@ }
    }
}

impl View for BatchStatus {
    type V = BatchStatusView;

    open spec fn view(&self) -> BatchStatusView {
        BatchStatusView {
            id: self.id@,
            status: self.status@,
            invalid_transactions: transaction_views(self.invalid_transactions@),
        }
    }
}

impl View for StatusResponse {
    type V = StatusResponseView;

    open spec fn view(&self) -> StatusResponseView {
        StatusResponseView { data: batch_views(self.data@), link: self.link@ }
    }
}

impl LinkView {
    /// The written form: the link, unquoted, as the one member of an object.
    pub open spec fn written(self) -> Seq<char> {
        "{\"link\": "@ + self.link + "}"@
    }
}

impl InvalidTransactionView {
    /// The written form: an object with the members `id` and `message`.
    pub open spec fn written(self) -> Seq<char> {
        "{\"id\": \""@ + self.id + "\", \"message\": \""@ + self.message + "\"}"@
    }
}

impl BatchStatusView {
    /// The written form: an object with the members `id`, `status` and
    /// `invalid_transactions`, the last an array of the transactions' forms.
    pub open spec fn written(self) -> Seq<char> {
        "{\"id\": \""@ + self.id + "\", \"status\": \""@ + self.status
            + "\", \"invalid_transactions\": ["@ + joined(
            transaction_forms(self.invalid_transactions),
            ","@,
        ) + "]}"@
    }
}

impl StatusResponseView {
    /// Whether every batch is committed.
    pub open spec fn all_committed(self) -> bool {
        forall|i: int| 0 <= i < self.data.len() ==> (#[trigger] self.data[i]).status == committed()
    }

    /// Whether some batch is rejected.
    pub open spec fn any_invalid(self) -> bool {
        exists|i: int| 0 <= i < self.data.len() && (#[trigger] self.data[i]).status == invalid()
    }

    /// Whether the outcome has settled: every batch is committed, or at least
    /// one is rejected. Without batches the first holds.
    pub open spec fn is_finished(self) -> bool {
        self.all_committed() || self.any_invalid()
    }

    /// The written form: the type's name, then an object with the members
    /// `data`, an array of the batches' forms, and `link`.
    pub open spec fn written(self) -> Seq<char> {
        "StatusResponse {\"data\":["@ + joined(batch_forms(self.data), ","@) + "], \"link\": \""@
            + self.link + "\"}"@
    }
}

impl Link {
    /// Writes the link for a log. The text is not meant to be read back.
    pub fn to_string(&self) -> (text: String)
        ensures
            text@ == self@.written(),
    {
        let mut text = String::from_str("{\"link\": ");
        text.append(self.link.as_str());
        text.append("}");
        text
    }
}

impl InvalidTransaction {
    /// Writes the transaction for a log. The text is not meant to be read back.
    pub fn to_string(&self) -> (text: String)
        ensures
            text@ == self@.written(),
    {
        let mut text = String::from_str("{\"id\": \"");
        text.append(self.id.as_str());
        text.append("\", \"message\": \"");
        text.append(self.message.as_str());
        text.append("\"}");
        text
    }
}

impl BatchStatus {
    /// Writes the batch's outcome for a log. The text is not meant to be read
    /// back.
    pub fn to_string(&self) -> (text: String)
        ensures
            text@ == self@.written(),
    {
        let mut forms: Vec<String> = Vec::new();
        let mut i: usize = 0;
        while i < self.invalid_transactions.len()
            invariant
                i <= self.invalid_transactions.len(),
                forms@.len() == i,
                texts(forms@) == transaction_forms(self@.invalid_transactions).take(
                    i as int,
                ),
            decreases self.invalid_transactions.len() - i,
        {
            let ghost before = forms@;
            let form = self.invalid_transactions[i].to_string();
            forms.push(form);
            proof {
                let wanted = transaction_forms(self@.invalid_transactions);
                assert forall|k: int| 0 <= k <= i implies texts(forms@)[k] == wanted[k] by {
                    if k < i {
                        assert(texts(before)[k] == wanted.take(i as int)[k]);
                    }
                }
            }
            i = i + 1;
        }
        assert(texts(forms@) =~= transaction_forms(self@.invalid_transactions));
        let mut text = String::from_str("{\"id\": \"");
        text.append(self.id.as_str());
        text.append("\", \"status\": \"");
        text.append(self.status.as_str());
        text.append("\", \"invalid_transactions\": [");
        text.append(join(&forms, ",").as_str());
        text.append("]}");
        text
    }
}

impl StatusResponse {
    /// Whether the outcome has settled: every batch is committed, or at least
    /// one batch is rejected. A response without batches counts as settled.
    pub fn is_finished(&self) -> (finished: bool)
        ensures
            finished == self@.is_finished(),
    {
        let committed_text = String::from_str("COMMITTED");
        let invalid_text = String::from_str("INVALID");
        let mut every_committed = true;
        let mut some_invalid = false;
        let mut i: usize = 0;
        while i < self.data.len()
            invariant
                i <= self.data.len(),
                committed_text@ == committed(),
                invalid_text@ == invalid(),
                every_committed == (forall|k: int|
                    0 <= k < i ==> (#[trigger] self@.data[k]).status == committed()),
                some_invalid == (exists|k: int|
                    0 <= k < i && (#[trigger] self@.data[k]).status == invalid()),
            decreases self.data.len() - i,
        {
            let entry = &self.data[i];
            assert(self@.data[i as int].status == entry.status@);
            if !(entry.status == committed_text) {
                every_committed = false;
            }
            if entry.status == invalid_text {
                some_invalid = true;
            }
            i = i + 1;
        }
        every_committed || some_invalid
    }

    /// Writes the response for a log. The text is not meant to be read back.
    pub fn to_string(&self) -> (text: String)
        ensures
            text@ == self@.written(),
    {
        let mut forms: Vec<String> = Vec::new();
        let mut i: usize = 0;
        while i < self.data.len()
            invariant
                i <= self.data.len(),
                forms@.len() == i,
                texts(forms@) == batch_forms(self@.data).take(i as int),
            decreases self.data.len() - i,
        {
            let ghost before = forms@;
            let form = self.data[i].to_string();
            forms.push(form);
            proof {
                let wanted = batch_forms(self@.data);
                assert forall|k: int| 0 <= k <= i implies texts(forms@)[k] == wanted[k] by {
                    if k < i {
                        assert(texts(before)[k] == wanted.take(i as int)[k]);
                    }
                }
            }
            i = i + 1;
        }
        assert(texts(forms@) =~= batch_forms(self@.data));
        let mut text = String::from_str("StatusResponse {\"data\":[");
        text.append(join(&forms, ",").as_str());
        text.append("], \"link\": \"");
        text.append(self.link.as_str());
        text.append("\"}");
        text
    }
}

} // verus!

//! The ordered steps from a transfer request to the service's verdict.
//!
//! Every step is a type of its own, and a step is reached only from the one
//! before it: a request is taken up, spendable outputs are fetched for it,
//! then it is validated, the transaction assembled, signed and submitted.
//! The two exchanges with the service are made by the caller, who hands in
//! how each of them ended. A request with a malformed part is refused when
//! it is taken up, before the first exchange. A failure ends the attempt;
//! nothing is retried, and the outputs fetched for one request serve no
//! other.
//!
//! The steps that carry the private key material cannot be printed.

use crate::amount::{parsed_value, value_product, value_truncated, Amount, DecimalValue};
use crate::error::{ErrorKind, ErrorView, PipelineError};
use crate::keys::{address_key, phrase_signature, PublicKey, Signature};
use crate::selector::{selected, CoinSelector};
use crate::transaction::{unsigned_transaction, Sign, SignView, Transaction, TransactionView};
use crate::unspent::{Unspent, SALT_BOUND};
use crate::utxo::{Utxo, UtxoView};
use crate::wire::{is_success, success_word, FetchOutcome, SubmitOutcome, UtxoRequest};
use vstd::prelude::*;

verus! {

/// Amounts are cut to this many fractional digits.
pub const PRECISION: u32 = 12;

/// A text without the white space at its two ends, as `str::trim` has it.
pub uninterp spec fn trimmed(text: Seq<char>) -> Seq<char>;

/// Calls `str::trim`.
///
/// Trusted: the result is the text without leading and trailing white
/// space, a function of the text alone.
#[verifier::external_body]
fn trim(text: &str) -> (r: String)
    ensures
        r@ == trimmed(text@),
{
    text.trim().to_string()
}

/// The fee rate: one hundredth, cut to the precision of amounts.
pub open spec fn fee_rate() -> DecimalValue {
    value_truncated(DecimalValue { mantissa: 1, scale: 2 }, PRECISION as nat)
}

/// The fee on a worth: the worth times the fee rate, cut to the precision of
/// amounts. `None` where the product overflows.
pub open spec fn fee_of(value: DecimalValue) -> Option<DecimalValue> {
    match value_product(value, fee_rate()) {
        Some(product) => Some(value_truncated(product, PRECISION as nat)),
        None => None,
    }
}

/// The figures of a transfer: who pays whom how much, and at what fee.
#[derive(Clone, Copy, Debug, PartialEq, Eq)]
pub struct TrxData {
    /// The sender's key.
    pub from: PublicKey,
    /// The recipient's key.
    pub to: PublicKey,
    /// The worth that is transferred.
    pub value: Amount,
    /// The fee on that worth.
    pub fee: Amount,
}

impl TrxData {
    /// The figures of a transfer of `value`, with the fee computed on it.
    /// `None` where the fee overflows.
    pub fn new(from: PublicKey, to: PublicKey, value: Amount) -> (r: Option<TrxData>)
        ensures
            r is Some <==> fee_of(value@) is Some,
            r matches Some(data) ==> data.from == from && data.to == to && data.value == value
                && Some(data.fee@) == fee_of(value@),
    {
        let hundredth = match Amount::from_parts(1, 2) {
            Some(hundredth) => hundredth,
            None => {
                return None;
            },
        };
        let rate = hundredth.trunc_with_scale(PRECISION);
        match value.checked_mul(&rate) {
            Some(product) => Some(
                TrxData { from, to, value, fee: product.trunc_with_scale(PRECISION) },
            ),
            None => None,
        }
    }
}

/// A failure as plain values.
pub open spec fn failure(kind: ErrorKind, message: Seq<char>) -> ErrorView {
    ErrorView { kind, message }
}

/// A transfer request as plain values. Addresses are held trimmed.
pub struct RequestView {
    pub wallet: Seq<char>,
    pub private: Seq<char>,
    pub to: Seq<char>,
    pub value: Seq<char>,
    pub date: Seq<char>,
}

/// The first step: the spendable outputs of the sender are to be fetched.
pub struct Fetching {
    wallet: String,
    private: String,
    to: String,
    value: String,
    date: String,
}

impl View for Fetching {
    type V = RequestView;

    closed spec fn view(&self) -> RequestView {
        RequestView {
            wallet: self.wallet@,
            private: self.private@,
            to: self.to@,
            value: self.value@,
            date: self.date@,
        }
    }
}

/// The second step as plain values.
pub struct ValidatingView {
    pub request: RequestView,
    pub utxos: Seq<UtxoView>,
}

/// The second step: outputs were fetched, the request is to be validated.
pub struct Validating {
    wallet: String,
    private: String,
    to: String,
    value: String,
    date: String,
    utxos: Vec<Utxo>,
}

impl View for Validating {
    type V = ValidatingView;

    closed spec fn view(&self) -> ValidatingView {
        ValidatingView {
            request: RequestView {
                wallet: self.wallet@,
                private: self.private@,
                to: self.to@,
                value: self.value@,
                date: self.date@,
            },
            utxos: self.utxos.deep_view(),
        }
    }
}

/// The third step as plain values.
pub struct AssemblingView {
    pub from: Seq<u8>,
    pub to: Seq<u8>,
    pub value: DecimalValue,
    pub utxos: Seq<UtxoView>,
    pub private: Seq<char>,
    pub date: Seq<char>,
}

/// The third step: the request is valid, the transaction is to be
/// assembled.
pub struct Assembling {
    from: PublicKey,
    to: PublicKey,
    value: Amount,
    utxos: Vec<Utxo>,
    private: String,
    date: String,
}

impl View for Assembling {
    type V = AssemblingView;

    closed spec fn view(&self) -> AssemblingView {
        AssemblingView {
            from: self.from@,
            to: self.to@,
            value: self.value@,
            utxos: self.utxos.deep_view(),
            private: self.private@,
            date: self.date@,
        }
    }
}

/// The fourth step as plain values.
pub struct SigningView {
    pub transaction: TransactionView,
    pub private: Seq<char>,
    pub signer: Seq<u8>,
}

/// The fourth step: the transaction is assembled and is to be signed.
pub struct Signing {
    transaction: Transaction,
    private: String,
    signer: PublicKey,
}

impl View for Signing {
    type V = SigningView;

    closed spec fn view(&self) -> SigningView {
        SigningView {
            transaction: self.transaction@,
            private: self.private@,
            signer: self.signer@,
        }
    }
}

/// The fifth step: the signed transaction is to be submitted.
#[derive(Debug)]
pub struct Submitting {
    transaction: Transaction,
}

impl View for Submitting {
    type V = TransactionView;

    closed spec fn view(&self) -> TransactionView {
        self.transaction@
    }
}

/// How an attempt ended once the transaction was submitted.
#[derive(Clone, Debug, PartialEq, Eq)]
pub enum Completion {
    /// The service accepted the transaction with this hash.
    Accepted(String),
    /// The service rejected the transaction and said why.
    Rejected(String),
    /// The exchange itself failed.
    Failed(PipelineError),
}

/// A `Completion` as plain values.
pub enum CompletionView {
    Accepted(Seq<char>),
    Rejected(Seq<char>),
    Failed(ErrorView),
}

impl View for Completion {
    type V = CompletionView;

    open spec fn view(&self) -> CompletionView {
        match self {
            Completion::Accepted(hash) => CompletionView::Accepted(hash@),
            Completion::Rejected(description) => CompletionView::Rejected(description@),
            Completion::Failed(error) => CompletionView::Failed(error@),
        }
    }
}

/// How an attempt that got as far as the submission ends for the caller: the
/// hash of the accepted transaction, or a failure. A rejection by the
/// service is a business error with the service's description.
pub open spec fn completion_result(completion: CompletionView) -> Result<Seq<char>, ErrorView> {
    match completion {
        CompletionView::Accepted(hash) => Ok(hash),
        CompletionView::Rejected(description) => Err(
            failure(ErrorKind::BusinessError, description),
        ),
        CompletionView::Failed(error) => Err(error),
    }
}

impl Completion {
    /// The hash of the accepted transaction, or the failure.
    pub fn into_result(self) -> (r: Result<String, PipelineError>)
        ensures
            match completion_result(self@) {
                Ok(hash) => r matches Ok(h) && h@ == hash,
                Err(error) => r matches Err(e) && e@ == error,
            },
    {
        match self {
            Completion::Accepted(hash) => Ok(hash),
            Completion::Rejected(description) => Err(
                PipelineError::new(ErrorKind::BusinessError, description),
            ),
            Completion::Failed(error) => Err(error),
        }
    }
}

/// What follows the fetch. A transport failure is a network error with the
/// transport's words; an unreadable body is a protocol error with the body;
/// an answer with another status than success is a business error with the
/// service's description. Otherwise the request goes on with the outputs
/// that the service offered, in their order.
pub open spec fn after_fetch(request: RequestView, outcome: FetchOutcome) -> Result<
    ValidatingView,
    ErrorView,
> {
    match outcome {
        FetchOutcome::TransportFailure(words) => Err(failure(ErrorKind::NetworkError, words@)),
        FetchOutcome::Unparseable(body) => Err(failure(ErrorKind::ProtocolError, body@)),
        FetchOutcome::Response(response) => if response.status@ == success_word() {
            Ok(ValidatingView { request, utxos: response.utxo_data.deep_view() })
        } else {
            Err(failure(ErrorKind::BusinessError, response.description@))
        },
    }
}

/// The sender, the recipient and the worth that a request names.
pub struct TransferParts {
    pub from: Seq<u8>,
    pub to: Seq<u8>,
    pub value: DecimalValue,
}

/// What a request names: the recipient's address, the sender's address and
/// the amount are parsed, in this order, and the first that is malformed is
/// an input error. The amount is cut to the precision of amounts.
pub open spec fn transfer_parts(wallet: Seq<char>, to: Seq<char>, value: Seq<char>) -> Result<
    TransferParts,
    ErrorView,
> {
    match address_key(to) {
        Err(_) => Err(failure(ErrorKind::InputError, "Invalid recipient address format"@)),
        Ok(to) => match address_key(wallet) {
            Err(_) => Err(failure(ErrorKind::InputError, "Invalid sender address format"@)),
            Ok(from) => match parsed_value(value) {
                None => Err(failure(ErrorKind::InputError, "Invalid amount"@)),
                Some(value) => Ok(
                    TransferParts { from, to, value: value_truncated(value, PRECISION as nat) },
                ),
            },
        },
    }
}

/// What a request names.
pub open spec fn request_parts(request: RequestView) -> Result<TransferParts, ErrorView> {
    transfer_parts(request.wallet, request.to, request.value)
}

/// Whether a request is taken up: it is, as it stands, unless a part of it
/// is malformed. A malformed request fails before anything is asked of the
/// service.
pub open spec fn taken_up(request: RequestView) -> Result<RequestView, ErrorView> {
    match request_parts(request) {
        Ok(_) => Ok(request),
        Err(error) => Err(error),
    }
}

/// What validation makes of a request for which outputs were fetched: the
/// keys and the amount that it names, with the outputs.
pub open spec fn validated(step: ValidatingView) -> Result<AssemblingView, ErrorView> {
    match request_parts(step.request) {
        Err(error) => Err(error),
        Ok(parts) => Ok(
            AssemblingView {
                from: parts.from,
                to: parts.to,
                value: parts.value,
                utxos: step.utxos,
                private: step.request.private,
                date: step.request.date,
            },
        ),
    }
}

/// A request with a malformed recipient is refused with an input error,
/// whatever its other parts are.
pub proof fn lemma_malformed_recipient_is_refused(request: RequestView)
    requires
        address_key(request.to) is Err,
    ensures
        taken_up(request) == Err::<RequestView, ErrorView>(
            failure(ErrorKind::InputError, "Invalid recipient address format"@),
        ),
{
}

/// A request that was taken up has no malformed part: whatever outputs are
/// fetched for it, its validation succeeds.
pub proof fn lemma_taken_up_request_validates(request: RequestView, utxos: Seq<UtxoView>)
    requires
        taken_up(request) is Ok,
    ensures
        validated(ValidatingView { request, utxos }) is Ok,
{
}

/// Parses the three parts of a request that can be malformed.
fn parse_parts(wallet: &str, to: &str, value: &str) -> (r: Result<
    (PublicKey, PublicKey, Amount),
    PipelineError,
>)
    ensures
        match transfer_parts(wallet@, to@, value@) {
            Ok(parts) => r matches Ok(p) && p.0@ == parts.from && p.1@ == parts.to && p.2@
                == parts.value,
            Err(error) => r matches Err(e) && e@ == error,
        },
{
    let recipient = match PublicKey::parse(to) {
        Ok(key) => key,
        Err(_) => {
            return Err(
                PipelineError::of(ErrorKind::InputError, "Invalid recipient address format"),
            );
        },
    };
    let sender = match PublicKey::parse(wallet) {
        Ok(key) => key,
        Err(_) => {
            return Err(PipelineError::of(ErrorKind::InputError, "Invalid sender address format"));
        },
    };
    let amount = match Amount::parse(value) {
        Some(amount) => amount,
        None => {
            return Err(PipelineError::of(ErrorKind::InputError, "Invalid amount"));
        },
    };
    Ok((sender, recipient, amount.trunc_with_scale(PRECISION)))
}

/// What assembly makes of a valid request, for the two salts: the fee is
/// computed, the outputs are decided, and the transaction over the fetched
/// outputs and the decided ones is built. An amount computation that
/// overflows is an input error.
pub open spec fn assembled(step: AssemblingView, change_salt: nat, payment_salt: nat) -> Result<
    SigningView,
    ErrorView,
> {
    match fee_of(step.value) {
        None => Err(failure(ErrorKind::InputError, "Amount out of range"@)),
        Some(fee) => match selected(
            step.utxos,
            step.value,
            fee,
            step.from,
            step.to,
            change_salt,
            payment_salt,
        ) {
            None => Err(failure(ErrorKind::InputError, "Amount out of range"@)),
            Some(unspents) => Ok(
                SigningView {
                    transaction: unsigned_transaction(
                        step.utxos,
                        unspents,
                        step.value,
                        fee,
                        step.date,
                    ),
                    private: step.private,
                    signer: step.from,
                },
            ),
        },
    }
}

/// What a signing attempt makes of an assembled transaction: with a
/// signature, the transaction carries it beside the sender's key; without,
/// the attempt is a signing error.
pub open spec fn countersigned(step: SigningView, signature: Option<Seq<u8>>) -> Result<
    TransactionView,
    ErrorView,
> {
    match signature {
        None => Err(failure(ErrorKind::SigningError, "Invalid signing key"@)),
        Some(bytes) => Ok(
            TransactionView {
                signature: step.transaction.signature.push(
                    SignView { signature: bytes, key: step.signer },
                ),
                ..step.transaction
            },
        ),
    }
}

/// The signature over the hash of the transaction, made with the private
/// key material of the request.
pub open spec fn signature_for(step: SigningView) -> Option<Seq<u8>> {
    match phrase_signature(step.private, step.transaction.hash) {
        Some(bytes) => Some(bytes@),
        None => None,
    }
}

/// What follows the submission. A transport failure is a network error, an
/// unreadable body a protocol error. An answer with the status of success
/// accepts the transaction, and the attempt ends with the transaction's
/// hash; any other status rejects it with the service's description.
pub open spec fn after_submit(
    transaction: TransactionView,
    outcome: SubmitOutcome,
) -> CompletionView {
    match outcome {
        SubmitOutcome::TransportFailure(words) => CompletionView::Failed(
            failure(ErrorKind::NetworkError, words@),
        ),
        SubmitOutcome::Unparseable(body) => CompletionView::Failed(
            failure(ErrorKind::ProtocolError, body@),
        ),
        SubmitOutcome::Response(response) => if response.status@ == success_word() {
            CompletionView::Accepted(transaction.hash)
        } else {
            CompletionView::Rejected(response.description@)
        },
    }
}

impl Fetching {
    /// Takes up a request. The two addresses are trimmed. A request with a
    /// malformed address or amount is refused here, before any exchange
    /// with the service.
    pub fn new(wallet: String, private: String, to: String, value: String, date: String) -> (r:
        Result<Fetching, PipelineError>)
        ensures
            match taken_up(
                RequestView {
                    wallet: trimmed(wallet@),
                    private: private@,
                    to: trimmed(to@),
                    value: value@,
                    date: date@,
                },
            ) {
                Ok(request) => r matches Ok(step) && step@ == request,
                Err(error) => r matches Err(e) && e@ == error,
            },
    {
        let wallet = trim(wallet.as_str());
        let to = trim(to.as_str());
        match parse_parts(wallet.as_str(), to.as_str(), value.as_str()) {
            Ok(_) => Ok(Fetching { wallet, private, to, value, date }),
            Err(error) => Err(error),
        }
    }

    /// The question to put to the service: the spendable outputs of the
    /// sender for the requested worth.
    pub fn query(&self) -> (r: UtxoRequest)
        ensures
            r.public_key@ == self@.wallet,
            r.request@ == "utxo"@,
            r.value@ == self@.value,
    {
        UtxoRequest {
            public_key: self.wallet.clone(),
            request: String::from_str("utxo"),
            value: self.value.clone(),
        }
    }

    /// Takes the outcome of the fetch.
    pub fn fetched(self, outcome: FetchOutcome) -> (r: Result<Validating, PipelineError>)
        ensures
            match after_fetch(self@, outcome) {
                Ok(next) => r matches Ok(step) && step@ == next,
                Err(error) => r matches Err(e) && e@ == error,
            },
    {
        match outcome {
            FetchOutcome::TransportFailure(words) => Err(
                PipelineError::new(ErrorKind::NetworkError, words),
            ),
            FetchOutcome::Unparseable(body) => Err(
                PipelineError::new(ErrorKind::ProtocolError, body),
            ),
            FetchOutcome::Response(response) => {
                if is_success(&response.status) {
                    Ok(
                        Validating {
                            wallet: self.wallet,
                            private: self.private,
                            to: self.to,
                            value: self.value,
                            date: self.date,
                            utxos: response.utxo_data,
                        },
                    )
                } else {
                    Err(PipelineError::new(ErrorKind::BusinessError, response.description))
                }
            },
        }
    }
}

impl Validating {
    /// Validates the request: its addresses become keys, its amount a
    /// decimal. No transaction is built from a request with a malformed
    /// part.
    pub fn validate(self) -> (r: Result<Assembling, PipelineError>)
        ensures
            match validated(self@) {
                Ok(next) => r matches Ok(step) && step@ == next,
                Err(error) => r matches Err(e) && e@ == error,
            },
    {
        let parts = match parse_parts(self.wallet.as_str(), self.to.as_str(), self.value.as_str()) {
            Ok(parts) => parts,
            Err(error) => {
                return Err(error);
            },
        };
        Ok(
            Assembling {
                from: parts.0,
                to: parts.1,
                value: parts.2,
                utxos: self.utxos,
                private: self.private,
                date: self.date,
            },
        )
    }

    /// Validates, assembles and signs: all that lies between the two
    /// exchanges with the service.
    pub fn prepare(self) -> (r: Result<Submitting, PipelineError>)
        ensures
            validated(self@) matches Err(error) ==> r matches Err(e) && e@ == error,
            validated(self@) matches Ok(valid) ==> exists|change_salt: nat, payment_salt: nat|
                change_salt < SALT_BOUND && payment_salt < SALT_BOUND && match #[trigger] assembled(
                    valid,
                    change_salt,
                    payment_salt,
                ) {
                    Err(error) => r matches Err(e) && e@ == error,
                    Ok(built) => match countersigned(built, signature_for(built)) {
                        Ok(transaction) => r matches Ok(step) && step@ == transaction,
                        Err(error) => r matches Err(e) && e@ == error,
                    },
                },
    {
        let assembling = match self.validate() {
            Ok(step) => step,
            Err(error) => {
                return Err(error);
            },
        };
        let change_salt = Unspent::draw_salt();
        let payment_salt = Unspent::draw_salt();
        let ghost valid = assembling@;
        let signing = match assembling.assemble_with_salts(change_salt, payment_salt) {
            Ok(step) => step,
            Err(error) => {
                assert(assembled(valid, change_salt as nat, payment_salt as nat) is Err);
                return Err(error);
            },
        };
        assert(assembled(valid, change_salt as nat, payment_salt as nat) is Ok);
        signing.sign()
    }
}

impl Assembling {
    /// The figures of the transfer, with the fee. `None` where the fee
    /// overflows.
    pub fn data(&self) -> (r: Option<TrxData>)
        ensures
            r is Some <==> fee_of(self@.value) is Some,
            r matches Some(data) ==> data.from@ == self@.from && data.to@ == self@.to
                && data.value@ == self@.value && Some(data.fee@) == fee_of(self@.value),
    {
        TrxData::new(self.from, self.to, self.value)
    }

    /// Assembles the transaction with the two salts given.
    pub fn assemble_with_salts(self, change_salt: u32, payment_salt: u32) -> (r: Result<
        Signing,
        PipelineError,
    >)
        ensures
            match assembled(self@, change_salt as nat, payment_salt as nat) {
                Ok(next) => r matches Ok(step) && step@ == next,
                Err(error) => r matches Err(e) && e@ == error,
            },
    {
        let data = match self.data() {
            Some(data) => data,
            None => {
                return Err(PipelineError::of(ErrorKind::InputError, "Amount out of range"));
            },
        };
        let unspents = match CoinSelector::select_with_salts(
            &self.utxos,
            data.value,
            data.fee,
            data.from,
            data.to,
            change_salt,
            payment_salt,
        ) {
            Some(unspents) => unspents,
            None => {
                return Err(PipelineError::of(ErrorKind::InputError, "Amount out of range"));
            },
        };
        let transaction = Transaction::build(self.utxos, unspents, data.value, data.fee, self.date);
        Ok(Signing { transaction, private: self.private, signer: data.from })
    }

    /// Assembles the transaction, with a salt drawn for every output.
    pub fn assemble(self) -> (r: Result<Signing, PipelineError>)
        ensures
            exists|change_salt: nat, payment_salt: nat|
                change_salt < SALT_BOUND && payment_salt < SALT_BOUND && match #[trigger] assembled(
                    self@,
                    change_salt,
                    payment_salt,
                ) {
                    Ok(next) => r matches Ok(step) && step@ == next,
                    Err(error) => r matches Err(e) && e@ == error,
                },
    {
        let change_salt = Unspent::draw_salt();
        let payment_salt = Unspent::draw_salt();
        let ghost before = self@;
        let r = self.assemble_with_salts(change_salt, payment_salt);
        assert(assembled(before, change_salt as nat, payment_salt as nat) is Ok || assembled(
            before,
            change_salt as nat,
            payment_salt as nat,
        ) is Err);
        r
    }
}

impl Signing {
    /// The transaction that is to be signed.
    pub fn transaction(&self) -> (r: &Transaction)
        ensures
            r@ == self@.transaction,
    {
        &self.transaction
    }

    /// Takes the outcome of a signing attempt over the transaction's hash.
    pub fn with_signature(self, signature: Option<Signature>) -> (r: Result<
        Submitting,
        PipelineError,
    >)
        ensures
            match countersigned(
                self@,
                match signature {
                    Some(s) => Some(s@),
                    None => None,
                },
            ) {
                Ok(transaction) => r matches Ok(step) && step@ == transaction,
                Err(error) => r matches Err(e) && e@ == error,
            },
    {
        match signature {
            Some(signature) => Ok(
                Submitting {
                    transaction: self.transaction.signed(Sign { signature, key: self.signer }),
                },
            ),
            None => Err(PipelineError::of(ErrorKind::SigningError, "Invalid signing key")),
        }
    }

    /// Signs the transaction's hash with the private key material of the
    /// request. The material is handed to the signer and not looked at.
    pub fn sign(self) -> (r: Result<Submitting, PipelineError>)
        ensures
            match countersigned(self@, signature_for(self@)) {
                Ok(transaction) => r matches Ok(step) && step@ == transaction,
                Err(error) => r matches Err(e) && e@ == error,
            },
    {
        let signature = Signature::sign(self.private.as_str(), self.transaction.hash().as_str());
        self.with_signature(signature)
    }
}

impl Submitting {
    /// The signed transaction.
    pub fn transaction(&self) -> (r: &Transaction)
        ensures
            r@ == self@,
    {
        &self.transaction
    }

    /// Takes the outcome of the submission.
    pub fn submitted(self, outcome: SubmitOutcome) -> (r: Completion)
        ensures
            r@ == after_submit(self@, outcome),
    {
        match outcome {
            SubmitOutcome::TransportFailure(words) => Completion::Failed(
                PipelineError::new(ErrorKind::NetworkError, words),
            ),
            SubmitOutcome::Unparseable(body) => Completion::Failed(
                PipelineError::new(ErrorKind::ProtocolError, body),
            ),
            SubmitOutcome::Response(response) => {
                if is_success(&response.status) {
                    Completion::Accepted(self.transaction.hash().clone())
                } else {
                    Completion::Rejected(response.description)
                }
            },
        }
    }
}

} // verus!

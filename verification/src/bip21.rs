//! The BIP21 URI decoder.
//!
//! A `bitcoin:` URI is an address, which may be empty, and a list of
//! `key=value` parameters separated by `&`. Decoding it gives a bundle: the
//! scalar parameters and every payment method the URI names, the on-chain
//! address first.

use crate::address::{bitcoin_address_spec, silent_payment_spec};
use crate::chain::{btc_amount_sat, parse_btc_amount};
use crate::encoding::{lowercase_of, percent_decode, percent_decoded, to_lowercase};
use crate::error::{Bip21Error, Bip21ErrorView};
use crate::lightning::{
    bolt12_invoice_spec, lightning_payment_method_spec, parse_bolt12_invoice,
    parse_lightning_payment_method,
};
use crate::models::{
    Bip21, Bip21Extra, Bip21ExtraView, Bip21View, BitcoinAddress, PaymentMethod,
    PaymentMethodView, PaymentRequestSource, PaymentRequestSourceView, result_view,
};
use crate::parser::InputParser;
use crate::text::{
    find_char, has_prefix, has_prefix_spec, lemma_find_char_from, starts_with, text_equal,
    text_find, text_skip, text_starts_with, text_take,
};
use vstd::prelude::*;

verus! {

/// The bundle that decoding starts from: the URI itself and nothing else.
pub open spec fn empty_bundle(uri: Seq<char>) -> Bip21View {
    Bip21View {
        amount_sat: None,
        asset_id: None,
        uri,
        extras: Seq::empty(),
        label: None,
        message: None,
        payment_methods: Seq::empty(),
    }
}

/// `bundle` with one more payment method at its end.
pub open spec fn with_method(bundle: Bip21View, method: PaymentMethodView) -> Bip21View {
    Bip21View { payment_methods: bundle.payment_methods.push(method), ..bundle }
}

/// What the address part of a URI contributes: nothing where it is empty,
/// an on-chain address where it is valid on one of the networks, and
/// `InvalidAddress` otherwise.
pub open spec fn bip21_address_spec(
    address: Seq<char>,
    source: PaymentRequestSourceView,
    bundle: Bip21View,
) -> Result<Bip21View, Bip21ErrorView> {
    if address.len() == 0 {
        Ok(bundle)
    } else {
        match bitcoin_address_spec(address, source) {
            Some(decoded) => Ok(with_method(bundle, PaymentMethodView::BitcoinAddress(decoded))),
            None => Err(Bip21ErrorView::InvalidAddress),
        }
    }
}

/// What one `key=value` parameter does to the bundle decoded so far.
///
/// The key is taken in lower case; a leading `req-` marks it as required
/// and is not part of it. `amount`, `assetid`, `label` and `message` may
/// occur once each. `lightning`, `b12` and `sp` add a payment method. `bc`
/// is ignored. Any other key is an error where it is required and is kept
/// with its value, as it was written, where it is not.
pub open spec fn bip21_param_spec(
    param: Seq<char>,
    source: PaymentRequestSourceView,
    bundle: Bip21View,
) -> Result<Bip21View, Bip21ErrorView> {
    let eq = find_char(param, '=');
    if eq >= param.len() {
        Err(Bip21ErrorView::MissingEquals)
    } else {
        let full_key = lowercase_of(param.take(eq));
        let value = param.skip(eq + 1);
        let is_required = starts_with(full_key, "req-"@);
        let key = if is_required {
            full_key.skip(4)
        } else {
            full_key
        };
        if key == "amount"@ {
            if bundle.amount_sat is Some {
                Err(Bip21ErrorView::MultipleParams(key))
            } else {
                match btc_amount_sat(value) {
                    Some(sat) => Ok(Bip21View { amount_sat: Some(sat), ..bundle }),
                    None => Err(Bip21ErrorView::InvalidAmount),
                }
            }
        } else if key == "assetid"@ {
            if bundle.asset_id is Some {
                Err(Bip21ErrorView::MultipleParams(key))
            } else {
                Ok(Bip21View { asset_id: Some(value), ..bundle })
            }
        } else if key == "b12"@ {
            match bolt12_invoice_spec(value, source) {
                Some(invoice) => Ok(with_method(bundle, PaymentMethodView::Bolt12Invoice(invoice))),
                None => Err(Bip21ErrorView::InvalidParameter(key, "not a BOLT12 invoice"@)),
            }
        } else if key == "bc"@ {
            Ok(bundle)
        } else if key == "label"@ {
            if bundle.label is Some {
                Err(Bip21ErrorView::MultipleParams(key))
            } else {
                match percent_decoded(value) {
                    Some(label) => Ok(Bip21View { label: Some(label), ..bundle }),
                    None => Err(
                        Bip21ErrorView::InvalidParameter(key, "not percent-encoded UTF-8"@),
                    ),
                }
            }
        } else if key == "lightning"@ {
            match lightning_payment_method_spec(value, source) {
                Some(method) => Ok(with_method(bundle, method)),
                None => Err(
                    Bip21ErrorView::InvalidParameter(key, "not a Lightning payment method"@),
                ),
            }
        } else if key == "message"@ {
            if bundle.message is Some {
                Err(Bip21ErrorView::MultipleParams(key))
            } else {
                match percent_decoded(value) {
                    Some(message) => Ok(Bip21View { message: Some(message), ..bundle }),
                    None => Err(
                        Bip21ErrorView::InvalidParameter(key, "not percent-encoded UTF-8"@),
                    ),
                }
            }
        } else if key == "sp"@ {
            match silent_payment_spec(value, source) {
                Some(address) => Ok(
                    with_method(bundle, PaymentMethodView::SilentPaymentAddress(address)),
                ),
                None => Err(
                    Bip21ErrorView::InvalidParameter(key, "not a silent payment address"@),
                ),
            }
        } else if is_required {
            Err(Bip21ErrorView::UnknownRequiredParameter(key))
        } else {
            Ok(
                Bip21View {
                    extras: bundle.extras.push(Bip21ExtraView { key: full_key, value }),
                    ..bundle
                },
            )
        }
    }
}

/// What a list of parameters separated by `&` does to the bundle: each
/// parameter in turn, up to the first that fails.
pub open spec fn bip21_params_spec(
    params: Seq<char>,
    source: PaymentRequestSourceView,
    bundle: Bip21View,
) -> Result<Bip21View, Bip21ErrorView>
    decreases params.len(),
{
    let amp = find_char(params, '&');
    match bip21_param_spec(params.take(amp), source, bundle) {
        Err(error) => Err(error),
        Ok(next) => if 0 <= amp < params.len() {
            bip21_params_spec(params.skip(amp + 1), source, next)
        } else {
            Ok(next)
        },
    }
}

/// What a text decodes to as a BIP21 URI.
///
/// A text without the `bitcoin:` prefix is no URI: `Ok(None)`. After the
/// prefix comes the address, up to the first `?`, and after that the
/// parameters. A URI that names no payment method at all is an error.
pub open spec fn bip21_spec(input: Seq<char>, source: PaymentRequestSourceView) -> Result<
    Option<Bip21View>,
    Bip21ErrorView,
> {
    if !has_prefix_spec(input, "bitcoin:"@) {
        Ok(None)
    } else {
        let body = input.skip(8);
        let question = find_char(body, '?');
        match bip21_address_spec(body.take(question), source, empty_bundle(input)) {
            Err(error) => Err(error),
            Ok(with_address) => {
                let decoded = if question < body.len() {
                    bip21_params_spec(body.skip(question + 1), source, with_address)
                } else {
                    Ok(with_address)
                };
                match decoded {
                    Err(error) => Err(error),
                    Ok(bundle) => if bundle.payment_methods.len() == 0 {
                        Err(Bip21ErrorView::NoPaymentMethods)
                    } else {
                        Ok(Some(bundle))
                    },
                }
            },
        }
    }
}

/// A bundle that holds `uri` and whose methods all come from `source`.
pub open spec fn bundle_from(bundle: Bip21View, uri: Seq<char>, source: PaymentRequestSourceView) -> bool {
    &&& bundle.uri == uri
    &&& forall|i: int|
        0 <= i < bundle.payment_methods.len() ==> (#[trigger] bundle.payment_methods[i]).source()
            == Some(source)
}

/// The key of a parameter, in lower case and without `req-`. `None` where
/// the parameter has no `=`.
pub open spec fn param_key(param: Seq<char>) -> Option<Seq<char>> {
    let eq = find_char(param, '=');
    if eq >= param.len() {
        None
    } else {
        let full_key = lowercase_of(param.take(eq));
        if starts_with(full_key, "req-"@) {
            Some(full_key.skip(4))
        } else {
            Some(full_key)
        }
    }
}

/// Whether a parameter is marked as required. False where the parameter
/// has no `=`.
pub open spec fn param_required(param: Seq<char>) -> bool {
    let eq = find_char(param, '=');
    eq < param.len() && starts_with(lowercase_of(param.take(eq)), "req-"@)
}

/// A key that may occur once.
pub open spec fn is_scalar_key(key: Seq<char>) -> bool {
    key == "amount"@ || key == "assetid"@ || key == "label"@ || key == "message"@
}

/// A key that the decoder understands.
pub open spec fn is_known_key(key: Seq<char>) -> bool {
    is_scalar_key(key) || key == "b12"@ || key == "bc"@ || key == "lightning"@ || key == "sp"@
}

/// Whether the bundle holds a value for a key that may occur once.
pub open spec fn has_scalar(bundle: Bip21View, key: Seq<char>) -> bool {
    if key == "amount"@ {
        bundle.amount_sat is Some
    } else if key == "assetid"@ {
        bundle.asset_id is Some
    } else if key == "label"@ {
        bundle.label is Some
    } else {
        key == "message"@ && bundle.message is Some
    }
}

/// The keys that the decoder understands are eight different texts.
pub proof fn lemma_keys_differ()
    ensures
        "amount"@ != "assetid"@,
        "amount"@ != "label"@,
        "amount"@ != "message"@,
        "assetid"@ != "label"@,
        "assetid"@ != "message"@,
        "label"@ != "message"@,
        !is_scalar_key("b12"@),
        !is_scalar_key("bc"@),
        !is_scalar_key("lightning"@),
        !is_scalar_key("sp"@),
{
    reveal_strlit("amount");
    reveal_strlit("assetid");
    reveal_strlit("label");
    reveal_strlit("message");
    reveal_strlit("b12");
    reveal_strlit("bc");
    reveal_strlit("lightning");
    reveal_strlit("sp");
    assert("amount"@[1] != "assetid"@[1]);
    assert("amount"@[0] != "label"@[0]);
    assert("amount"@[0] != "message"@[0]);
    assert("assetid"@[0] != "label"@[0]);
    assert("assetid"@[0] != "message"@[0]);
    assert("label"@[0] != "message"@[0]);
    assert("b12"@.len() == 3 && "bc"@.len() == 2 && "sp"@.len() == 2 && "lightning"@.len() == 9);
    assert("amount"@.len() == 6 && "assetid"@.len() == 7 && "label"@.len() == 5 && "message"@.len()
        == 7);
}

/// A parameter that may occur once is rejected when it occurs again: where
/// the bundle holds a value for its key, the parameter fails with
/// `MultipleParams` and its key.
pub proof fn lemma_duplicate_rejected(
    param: Seq<char>,
    source: PaymentRequestSourceView,
    bundle: Bip21View,
)
    requires
        param_key(param) is Some,
        is_scalar_key(param_key(param).unwrap()),
        has_scalar(bundle, param_key(param).unwrap()),
    ensures
        bip21_param_spec(param, source, bundle) == Err::<Bip21View, Bip21ErrorView>(
            Bip21ErrorView::MultipleParams(param_key(param).unwrap()),
        ),
{
    lemma_keys_differ();
}

/// A parameter that may occur once and is accepted leaves its value in the
/// bundle, so that the same key is rejected from then on.
pub proof fn lemma_scalar_recorded(
    param: Seq<char>,
    source: PaymentRequestSourceView,
    bundle: Bip21View,
)
    requires
        param_key(param) is Some,
        is_scalar_key(param_key(param).unwrap()),
        bip21_param_spec(param, source, bundle) is Ok,
    ensures
        has_scalar(bip21_param_spec(param, source, bundle)->Ok_0, param_key(param).unwrap()),
{
    lemma_keys_differ();
}

/// Of two parameters with the same key that may occur once, the second is
/// rejected whenever the first is accepted, whatever their values are.
pub proof fn lemma_second_occurrence_rejected(
    first: Seq<char>,
    second: Seq<char>,
    source: PaymentRequestSourceView,
    bundle: Bip21View,
)
    requires
        param_key(first) is Some,
        param_key(second) == param_key(first),
        is_scalar_key(param_key(first).unwrap()),
        bip21_param_spec(first, source, bundle) is Ok,
    ensures
        bip21_param_spec(second, source, bip21_param_spec(first, source, bundle)->Ok_0) == Err::<
            Bip21View,
            Bip21ErrorView,
        >(Bip21ErrorView::MultipleParams(param_key(first).unwrap())),
{
    lemma_scalar_recorded(first, source, bundle);
    lemma_duplicate_rejected(second, source, bip21_param_spec(first, source, bundle)->Ok_0);
}

/// The parameter at place `n` of a list separated by `&`, counted from
/// zero. `None` where the list is shorter.
pub open spec fn param_at(params: Seq<char>, n: nat) -> Option<Seq<char>>
    decreases n,
{
    let amp = find_char(params, '&');
    if n == 0 {
        Some(params.take(amp))
    } else if 0 <= amp < params.len() {
        param_at(params.skip(amp + 1), (n - 1) as nat)
    } else {
        None
    }
}

/// A value that the bundle holds for a key that may occur once stays
/// through every parameter that is accepted.
pub proof fn lemma_scalar_kept(
    param: Seq<char>,
    source: PaymentRequestSourceView,
    bundle: Bip21View,
    key: Seq<char>,
)
    requires
        is_scalar_key(key),
        has_scalar(bundle, key),
        bip21_param_spec(param, source, bundle) is Ok,
    ensures
        has_scalar(bip21_param_spec(param, source, bundle)->Ok_0, key),
{
    lemma_keys_differ();
}

/// A list of parameters fails where one of them brings a key that may
/// occur once and that the bundle holds a value for.
pub proof fn lemma_occurrence_after_value_rejected(
    params: Seq<char>,
    source: PaymentRequestSourceView,
    bundle: Bip21View,
    n: nat,
)
    requires
        param_at(params, n) is Some,
        param_key(param_at(params, n).unwrap()) is Some,
        is_scalar_key(param_key(param_at(params, n).unwrap()).unwrap()),
        has_scalar(bundle, param_key(param_at(params, n).unwrap()).unwrap()),
    ensures
        bip21_params_spec(params, source, bundle) is Err,
    decreases n,
{
    let amp = find_char(params, '&');
    let first = params.take(amp);
    let key = param_key(param_at(params, n).unwrap()).unwrap();
    if n == 0 {
        lemma_duplicate_rejected(first, source, bundle);
    } else if bip21_param_spec(first, source, bundle) is Ok {
        lemma_scalar_kept(first, source, bundle, key);
        lemma_occurrence_after_value_rejected(
            params.skip(amp + 1),
            source,
            bip21_param_spec(first, source, bundle)->Ok_0,
            (n - 1) as nat,
        );
    }
}

/// A list of parameters in which a key that may occur once occurs twice,
/// at any two places, never decodes: `amount`, `assetid`, `label` and
/// `message` are rejected when they are repeated, whatever their values.
pub proof fn lemma_repeated_parameter_rejected(
    params: Seq<char>,
    source: PaymentRequestSourceView,
    bundle: Bip21View,
    i: nat,
    j: nat,
)
    requires
        i < j,
        param_at(params, i) is Some,
        param_at(params, j) is Some,
        param_key(param_at(params, i).unwrap()) is Some,
        param_key(param_at(params, j).unwrap()) == param_key(param_at(params, i).unwrap()),
        is_scalar_key(param_key(param_at(params, i).unwrap()).unwrap()),
    ensures
        bip21_params_spec(params, source, bundle) is Err,
    decreases i,
{
    let amp = find_char(params, '&');
    let first = params.take(amp);
    if bip21_param_spec(first, source, bundle) is Ok {
        let next = bip21_param_spec(first, source, bundle)->Ok_0;
        if i == 0 {
            lemma_scalar_recorded(first, source, bundle);
            lemma_occurrence_after_value_rejected(
                params.skip(amp + 1),
                source,
                next,
                (j - 1) as nat,
            );
        } else {
            lemma_repeated_parameter_rejected(
                params.skip(amp + 1),
                source,
                next,
                (i - 1) as nat,
                (j - 1) as nat,
            );
        }
    }
}

/// A URI in whose parameters a key that may occur once occurs twice never
/// decodes.
pub proof fn lemma_repeated_parameter_in_uri(
    input: Seq<char>,
    source: PaymentRequestSourceView,
    i: nat,
    j: nat,
)
    requires
        has_prefix_spec(input, "bitcoin:"@),
        find_char(input.skip(8), '?') < input.skip(8).len(),
        i < j,
        ({
            let params = input.skip(8).skip(find_char(input.skip(8), '?') + 1);
            &&& param_at(params, i) is Some
            &&& param_at(params, j) is Some
            &&& param_key(param_at(params, i).unwrap()) is Some
            &&& param_key(param_at(params, j).unwrap()) == param_key(param_at(params, i).unwrap())
            &&& is_scalar_key(param_key(param_at(params, i).unwrap()).unwrap())
        }),
    ensures
        bip21_spec(input, source) is Err,
{
    let body = input.skip(8);
    let question = find_char(body, '?');
    let address = bip21_address_spec(body.take(question), source, empty_bundle(input));
    if address is Ok {
        lemma_repeated_parameter_rejected(body.skip(question + 1), source, address->Ok_0, i, j);
    }
}

/// A list of parameters fails where one of them is marked as required and
/// has a key that the decoder does not understand.
pub proof fn lemma_unknown_required_rejected(
    params: Seq<char>,
    source: PaymentRequestSourceView,
    bundle: Bip21View,
    n: nat,
)
    requires
        param_at(params, n) is Some,
        param_key(param_at(params, n).unwrap()) is Some,
        !is_known_key(param_key(param_at(params, n).unwrap()).unwrap()),
        param_required(param_at(params, n).unwrap()),
    ensures
        bip21_params_spec(params, source, bundle) is Err,
    decreases n,
{
    let amp = find_char(params, '&');
    let first = params.take(amp);
    if n > 0 && bip21_param_spec(first, source, bundle) is Ok {
        lemma_unknown_required_rejected(
            params.skip(amp + 1),
            source,
            bip21_param_spec(first, source, bundle)->Ok_0,
            (n - 1) as nat,
        );
    }
}

/// A parameter whose key the decoder does not understand fails with
/// `UnknownRequiredParameter` where it is marked as required, and is kept
/// among the extras, key and value, where it is not.
pub proof fn lemma_unknown_parameter(
    param: Seq<char>,
    source: PaymentRequestSourceView,
    bundle: Bip21View,
)
    requires
        param_key(param) is Some,
        !is_known_key(param_key(param).unwrap()),
    ensures
        param_required(param) ==> bip21_param_spec(param, source, bundle) == Err::<
            Bip21View,
            Bip21ErrorView,
        >(Bip21ErrorView::UnknownRequiredParameter(param_key(param).unwrap())),
        !param_required(param) ==> bip21_param_spec(param, source, bundle) == Ok::<
            Bip21View,
            Bip21ErrorView,
        >(
            Bip21View {
                extras: bundle.extras.push(
                    Bip21ExtraView {
                        key: param_key(param).unwrap(),
                        value: param.skip(find_char(param, '=') + 1),
                    },
                ),
                ..bundle
            },
        ),
{
}

/// A parameter changes neither the URI of a bundle nor where its methods
/// come from.
pub proof fn lemma_param_keeps_origin(
    param: Seq<char>,
    source: PaymentRequestSourceView,
    bundle: Bip21View,
    uri: Seq<char>,
)
    requires
        bundle_from(bundle, uri, source),
        bip21_param_spec(param, source, bundle) is Ok,
    ensures
        bundle_from(bip21_param_spec(param, source, bundle)->Ok_0, uri, source),
{
    let next = bip21_param_spec(param, source, bundle)->Ok_0;
    assert forall|i: int| 0 <= i < next.payment_methods.len() implies (
    #[trigger] next.payment_methods[i]).source() == Some(source) by {
        if i < bundle.payment_methods.len() {
            assert(next.payment_methods[i] == bundle.payment_methods[i]);
        }
    }
}

/// A list of parameters changes neither the URI of a bundle nor where its
/// methods come from.
pub proof fn lemma_params_keep_origin(
    params: Seq<char>,
    source: PaymentRequestSourceView,
    bundle: Bip21View,
    uri: Seq<char>,
)
    requires
        bundle_from(bundle, uri, source),
        bip21_params_spec(params, source, bundle) is Ok,
    ensures
        bundle_from(bip21_params_spec(params, source, bundle)->Ok_0, uri, source),
    decreases params.len(),
{
    let amp = find_char(params, '&');
    lemma_find_char_from(params, '&', 0);
    lemma_param_keeps_origin(params.take(amp), source, bundle, uri);
    if amp < params.len() {
        lemma_params_keep_origin(
            params.skip(amp + 1),
            source,
            bip21_param_spec(params.take(amp), source, bundle)->Ok_0,
            uri,
        );
    }
}

/// `bundle` with each of its methods taken as found in `source`.
pub open spec fn bundle_with_source(bundle: Bip21View, source: PaymentRequestSourceView) -> Bip21View {
    Bip21View {
        payment_methods: bundle.payment_methods.map_values(
            |method: PaymentMethodView| method.with_source(source),
        ),
        ..bundle
    }
}

/// The outcome of decoding with each method taken as found in `source`.
pub open spec fn outcome_with_source(
    outcome: Result<Bip21View, Bip21ErrorView>,
    source: PaymentRequestSourceView,
) -> Result<Bip21View, Bip21ErrorView> {
    match outcome {
        Ok(bundle) => Ok(bundle_with_source(bundle, source)),
        Err(error) => Err(error),
    }
}

/// The source that is given decides where the methods come from and
/// nothing else: a parameter does with another source what it does with
/// this one, but for the sources of the methods.
pub proof fn lemma_param_source(
    param: Seq<char>,
    source: PaymentRequestSourceView,
    other: PaymentRequestSourceView,
    bundle: Bip21View,
)
    ensures
        bip21_param_spec(param, other, bundle_with_source(bundle, other)) == outcome_with_source(
            bip21_param_spec(param, source, bundle),
            other,
        ),
{
    let outcome = bip21_param_spec(param, source, bundle);
    let moved = bundle_with_source(bundle, other);
    if outcome is Ok {
        let next = outcome->Ok_0;
        let there = bip21_param_spec(param, other, moved);
        assert(there is Ok);
        assert(there->Ok_0.payment_methods =~= bundle_with_source(next, other).payment_methods);
    }
}

/// A list of parameters does with another source what it does with this
/// one, but for the sources of the methods.
pub proof fn lemma_params_source(
    params: Seq<char>,
    source: PaymentRequestSourceView,
    other: PaymentRequestSourceView,
    bundle: Bip21View,
)
    ensures
        bip21_params_spec(params, other, bundle_with_source(bundle, other)) == outcome_with_source(
            bip21_params_spec(params, source, bundle),
            other,
        ),
    decreases params.len(),
{
    let amp = find_char(params, '&');
    lemma_find_char_from(params, '&', 0);
    lemma_param_source(params.take(amp), source, other, bundle);
    if bip21_param_spec(params.take(amp), source, bundle) is Ok && amp < params.len() {
        lemma_params_source(
            params.skip(amp + 1),
            source,
            other,
            bip21_param_spec(params.take(amp), source, bundle)->Ok_0,
        );
    }
}

/// Decoding a URI with another source gives the same outcome, but for the
/// sources of the methods.
pub proof fn lemma_bip21_source(
    input: Seq<char>,
    source: PaymentRequestSourceView,
    other: PaymentRequestSourceView,
)
    ensures
        bip21_spec(input, other) == (match bip21_spec(input, source) {
            Ok(Some(bundle)) => Ok(Some(bundle_with_source(bundle, other))),
            Ok(None) => Ok(None),
            Err(error) => Err(error),
        }),
{
    if has_prefix_spec(input, "bitcoin:"@) {
        let body = input.skip(8);
        let question = find_char(body, '?');
        lemma_find_char_from(body, '?', 0);
        let here = bip21_address_spec(body.take(question), source, empty_bundle(input));
        let there = bip21_address_spec(body.take(question), other, empty_bundle(input));
        if here is Ok {
            assert(there is Ok);
            assert(there->Ok_0.payment_methods =~= bundle_with_source(
                here->Ok_0,
                other,
            ).payment_methods);
            assert(there->Ok_0 == bundle_with_source(here->Ok_0, other));
            if question < body.len() {
                lemma_params_source(body.skip(question + 1), source, other, here->Ok_0);
            }
        }
    }
}

/// Taking the methods of a bundle as found where they were found changes
/// nothing.
pub proof fn lemma_same_source(bundle: Bip21View, uri: Seq<char>, source: PaymentRequestSourceView)
    requires
        bundle_from(bundle, uri, source),
    ensures
        bundle_with_source(bundle, source) == bundle,
{
    assert(bundle_with_source(bundle, source).payment_methods =~= bundle.payment_methods) by {
        assert forall|i: int| 0 <= i < bundle.payment_methods.len() implies (
        #[trigger] bundle.payment_methods[i]).with_source(source) == bundle.payment_methods[i] by {
            assert(bundle.payment_methods[i].source() == Some(source));
        }
    }
}

/// A parameter takes no payment method away and changes none.
pub proof fn lemma_param_keeps_methods(
    param: Seq<char>,
    source: PaymentRequestSourceView,
    bundle: Bip21View,
)
    requires
        bip21_param_spec(param, source, bundle) is Ok,
    ensures
        bundle.payment_methods.is_prefix_of(
            bip21_param_spec(param, source, bundle)->Ok_0.payment_methods,
        ),
{
    let next = bip21_param_spec(param, source, bundle)->Ok_0;
    assert(bundle.payment_methods =~= next.payment_methods.take(
        bundle.payment_methods.len() as int,
    ));
}

/// A list of parameters takes no payment method away and changes none.
pub proof fn lemma_params_keep_methods(
    params: Seq<char>,
    source: PaymentRequestSourceView,
    bundle: Bip21View,
)
    requires
        bip21_params_spec(params, source, bundle) is Ok,
    ensures
        bundle.payment_methods.is_prefix_of(
            bip21_params_spec(params, source, bundle)->Ok_0.payment_methods,
        ),
    decreases params.len(),
{
    let amp = find_char(params, '&');
    lemma_find_char_from(params, '&', 0);
    lemma_param_keeps_methods(params.take(amp), source, bundle);
    if amp < params.len() {
        let next = bip21_param_spec(params.take(amp), source, bundle)->Ok_0;
        lemma_params_keep_methods(params.skip(amp + 1), source, next);
        let last = bip21_params_spec(params, source, bundle)->Ok_0;
        assert(bundle.payment_methods =~= last.payment_methods.take(
            bundle.payment_methods.len() as int,
        )) by {
            assert(next.payment_methods == last.payment_methods.take(
                next.payment_methods.len() as int,
            ));
            assert(bundle.payment_methods == next.payment_methods.take(
                bundle.payment_methods.len() as int,
            ));
        }
    }
}

/// A decoded bundle offers at least one payment method, and where the URI
/// holds an address, the address is the first of them.
pub proof fn lemma_bip21_address_first(input: Seq<char>, source: PaymentRequestSourceView)
    requires
        bip21_spec(input, source) is Ok,
        bip21_spec(input, source)->Ok_0 is Some,
    ensures
        bip21_spec(input, source)->Ok_0.unwrap().payment_methods.len() > 0,
        input.skip(8).take(find_char(input.skip(8), '?')).len() > 0 ==> bip21_spec(
            input,
            source,
        )->Ok_0.unwrap().payment_methods[0] is BitcoinAddress,
{
    let body = input.skip(8);
    let question = find_char(body, '?');
    lemma_find_char_from(body, '?', 0);
    let with_address = bip21_address_spec(body.take(question), source, empty_bundle(input))->Ok_0;
    if question < body.len() {
        lemma_params_keep_methods(body.skip(question + 1), source, with_address);
    }
    if body.take(question).len() > 0 {
        let decoded = bip21_spec(input, source)->Ok_0.unwrap();
        assert(with_address.payment_methods[0] is BitcoinAddress);
        assert(decoded.payment_methods.take(with_address.payment_methods.len() as int)[0]
            == decoded.payment_methods[0]);
    }
}

/// A decoded bundle holds the URI it was decoded from, each of its methods
/// comes from the source that was given, and decoding the URI that the
/// bundle holds gives the bundle again.
pub proof fn lemma_bip21_records_uri(input: Seq<char>, source: PaymentRequestSourceView)
    requires
        bip21_spec(input, source) is Ok,
        bip21_spec(input, source)->Ok_0 is Some,
    ensures
        bundle_from(bip21_spec(input, source)->Ok_0.unwrap(), input, source),
        bip21_spec(bip21_spec(input, source)->Ok_0.unwrap().uri, source) == bip21_spec(
            input,
            source,
        ),
{
    let body = input.skip(8);
    let question = find_char(body, '?');
    lemma_find_char_from(body, '?', 0);
    let with_address = bip21_address_spec(body.take(question), source, empty_bundle(input))->Ok_0;
    assert(bundle_from(with_address, input, source));
    if question < body.len() {
        lemma_params_keep_origin(body.skip(question + 1), source, with_address, input);
    }
}

/// Whether `input` begins with `bitcoin:`, in any case.
pub fn has_bip_21_prefix(input: &str) -> (r: bool)
    ensures
        r == has_prefix_spec(input@, "bitcoin:"@),
{
    has_prefix(input, "bitcoin:")
}

/// Adds a payment method at the end of the bundle.
fn push_method(bundle: Bip21, method: PaymentMethod) -> (r: Bip21)
    ensures
        r@ == with_method(bundle@, method@),
{
    let ghost before = bundle.payment_methods.deep_view();
    let ghost added = method@;
    let mut bundle = bundle;
    bundle.payment_methods.push(method);
    assert(bundle.payment_methods.deep_view() =~= before.push(added));
    bundle
}

impl InputParser {
    /// Applies one `key=value` parameter to the bundle decoded so far.
    pub fn parse_bip_21_param(
        &self,
        param: &str,
        source: &PaymentRequestSource,
        bundle: Bip21,
    ) -> (r: Result<Bip21, Bip21Error>)
        ensures
            result_view(r) == bip21_param_spec(param@, source@, bundle@),
    {
        let mut bundle = bundle;
        let eq = text_find(param, '=');
        if eq >= param.unicode_len() {
            return Err(Bip21Error::MissingEquals);
        }
        let full_key = to_lowercase(text_take(param, eq));
        let value = text_skip(param, eq + 1);
        let is_required = text_starts_with(full_key.as_str(), "req-");
        proof {
            reveal_strlit("req-");
        }
        let key = if is_required {
            text_skip(full_key.as_str(), 4)
        } else {
            full_key.as_str()
        };
        if text_equal(key, "amount") {
            if bundle.amount_sat.is_some() {
                return Err(Bip21Error::MultipleParams(key.to_owned()));
            }
            match parse_btc_amount(value) {
                Some(sat) => {
                    bundle.amount_sat = Some(sat);
                    Ok(bundle)
                },
                None => Err(Bip21Error::InvalidAmount),
            }
        } else if text_equal(key, "assetid") {
            if bundle.asset_id.is_some() {
                return Err(Bip21Error::MultipleParams(key.to_owned()));
            }
            bundle.asset_id = Some(value.to_owned());
            Ok(bundle)
        } else if text_equal(key, "b12") {
            match parse_bolt12_invoice(value, source) {
                Some(invoice) => Ok(push_method(bundle, PaymentMethod::Bolt12Invoice(invoice))),
                None => Err(
                    Bip21Error::InvalidParameter(
                        key.to_owned(),
                        "not a BOLT12 invoice".to_owned(),
                    ),
                ),
            }
        } else if text_equal(key, "bc") {
            Ok(bundle)
        } else if text_equal(key, "label") {
            if bundle.label.is_some() {
                return Err(Bip21Error::MultipleParams(key.to_owned()));
            }
            match percent_decode(value) {
                Some(label) => {
                    bundle.label = Some(label);
                    Ok(bundle)
                },
                None => Err(
                    Bip21Error::InvalidParameter(
                        key.to_owned(),
                        "not percent-encoded UTF-8".to_owned(),
                    ),
                ),
            }
        } else if text_equal(key, "lightning") {
            match parse_lightning_payment_method(value, source) {
                Some(method) => Ok(push_method(bundle, method)),
                None => Err(
                    Bip21Error::InvalidParameter(
                        key.to_owned(),
                        "not a Lightning payment method".to_owned(),
                    ),
                ),
            }
        } else if text_equal(key, "message") {
            if bundle.message.is_some() {
                return Err(Bip21Error::MultipleParams(key.to_owned()));
            }
            match percent_decode(value) {
                Some(message) => {
                    bundle.message = Some(message);
                    Ok(bundle)
                },
                None => Err(
                    Bip21Error::InvalidParameter(
                        key.to_owned(),
                        "not percent-encoded UTF-8".to_owned(),
                    ),
                ),
            }
        } else if text_equal(key, "sp") {
            match self.parse_silent_payment_address(value, source) {
                Some(address) => Ok(
                    push_method(bundle, PaymentMethod::SilentPaymentAddress(address)),
                ),
                None => Err(
                    Bip21Error::InvalidParameter(
                        key.to_owned(),
                        "not a silent payment address".to_owned(),
                    ),
                ),
            }
        } else if is_required {
            Err(Bip21Error::UnknownRequiredParameter(key.to_owned()))
        } else {
            let ghost before = bundle.extras.deep_view();
            let extra = Bip21Extra { key: full_key.clone(), value: value.to_owned() };
            bundle.extras.push(extra);
            assert(bundle.extras.deep_view() =~= before.push(
                Bip21ExtraView { key: full_key@, value: value@ },
            ));
            Ok(bundle)
        }
    }

    /// Applies a list of parameters separated by `&` to the bundle, each in
    /// turn, and stops at the first that fails.
    pub fn parse_bip_21_params(
        &self,
        params: &str,
        source: &PaymentRequestSource,
        bundle: Bip21,
    ) -> (r: Result<Bip21, Bip21Error>)
        ensures
            result_view(r) == bip21_params_spec(params@, source@, bundle@),
    {
        let mut rest = params;
        let mut decoded = bundle;
        loop
            invariant
                bip21_params_spec(rest@, source@, decoded@) == bip21_params_spec(
                    params@,
                    source@,
                    bundle@,
                ),
            decreases rest@.len(),
        {
            let amp = text_find(rest, '&');
            let param = text_take(rest, amp);
            decoded = match self.parse_bip_21_param(param, source, decoded) {
                Ok(next) => next,
                Err(error) => {
                    return Err(error);
                },
            };
            if amp < rest.unicode_len() {
                rest = text_skip(rest, amp + 1);
            } else {
                return Ok(decoded);
            }
        }
    }

    /// Decodes a BIP21 URI.
    ///
    /// Returns `Ok(None)` for a text without the `bitcoin:` prefix. For a
    /// text with it, returns the bundle of everything the URI says, or the
    /// first error met: an address valid on no network, a parameter without
    /// `=`, an amount that is none, a scalar parameter given twice, an
    /// alternative that does not decode, a required parameter that is not
    /// understood, or no payment method at all.
    pub fn parse_bip_21(&self, input: &str, source: PaymentRequestSource) -> (r: Result<
        Option<Bip21>,
        Bip21Error,
    >)
        ensures
            result_view(r) == bip21_spec(input@, source@),
    {
        if !has_bip_21_prefix(input) {
            return Ok(None);
        }
        proof {
            reveal_strlit("bitcoin:");
        }
        let body = text_skip(input, 8);
        let question = text_find(body, '?');
        let address = text_take(body, question);
        let mut bundle = Bip21 {
            amount_sat: None,
            asset_id: None,
            uri: input.to_owned(),
            extras: Vec::new(),
            label: None,
            message: None,
            payment_methods: Vec::new(),
        };
        assert(bundle@ == empty_bundle(input@)) by {
            assert(bundle.extras.deep_view() =~= Seq::empty());
            assert(bundle.payment_methods.deep_view() =~= Seq::empty());
        }
        if !address.is_empty() {
            match self.parse_bitcoin_address(address, &source) {
                Some(decoded) => {
                    bundle = push_method(bundle, PaymentMethod::BitcoinAddress(decoded));
                },
                None => {
                    return Err(Bip21Error::InvalidAddress);
                },
            }
        }
        if question < body.unicode_len() {
            bundle = match self.parse_bip_21_params(text_skip(body, question + 1), &source, bundle) {
                Ok(decoded) => decoded,
                Err(error) => {
                    return Err(error);
                },
            };
        }
        if bundle.payment_methods.len() == 0 {
            return Err(Bip21Error::NoPaymentMethods);
        }
        Ok(Some(bundle))
    }
}

} // verus!

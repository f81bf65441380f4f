use vstd::prelude::*;
use crate::error::Error;

verus! {

/// The language codes of the speech service's client, as its `LanguageCode`
/// enumeration spells them.
pub open spec fn polly_language_codes() -> Seq<Seq<char>> {
    seq![
        "ar-AE"@, "arb"@, "ca-ES"@, "cmn-CN"@, "cy-GB"@, "da-DK"@,
        "de-AT"@, "de-DE"@, "en-AU"@, "en-GB"@, "en-GB-WLS"@, "en-IN"@,
        "en-NZ"@, "en-US"@, "en-ZA"@, "es-ES"@, "es-MX"@, "es-US"@,
        "fi-FI"@, "fr-CA"@, "fr-FR"@, "hi-IN"@, "is-IS"@, "it-IT"@,
        "ja-JP"@, "ko-KR"@, "nb-NO"@, "nl-NL"@, "pl-PL"@, "pt-BR"@,
        "pt-PT"@, "ro-RO"@, "ru-RU"@, "sv-SE"@, "tr-TR"@, "yue-CN"@,
    ]
}

/// Whether the speech service's client knows the language code, that is,
/// whether it parses into one of the codes of its enumeration.
pub open spec fn polly_language_known(code: Seq<char>) -> bool {
    polly_language_codes().contains(code)
}

/// Relies on `aws_sdk_polly::model::LanguageCode::from(&str)`: each of the
/// listed codes becomes its own variant, any other string the `Unknown` variant.
#[verifier::external_body]
fn language_code_known(code: &str) -> (r: bool)
    ensures
        r == polly_language_known(code@),
{
    let parsed = aws_sdk_polly::model::LanguageCode::from(code);
    !matches!(parsed, aws_sdk_polly::model::LanguageCode::Unknown(_))
}

/// Checks a language code before anything is asked of a service: the code
/// itself when the speech service knows it, else a parse error.
pub fn parse_language_code(code: String) -> (r: Result<String, Error>)
    ensures
        r is Ok <==> polly_language_known(code@),
        r matches Ok(c) ==> c@ == code@,
        r matches Err(e) ==> e.kind == crate::error::ErrorKind::Parse,
{
    if language_code_known(code.as_str()) {
        Ok(code)
    } else {
        let mut message = String::from_str("unknown language code: ");
        message.append(code.as_str());
        Err(Error::parse(message))
    }
}

} // verus!

//! The platform's configuration: a name and a temperature, decoded from the
//! two fields of the payload that the host hands over.
use vstd::prelude::*;

verus! {

/// One field of the configuration payload, as the host supplied it.
/// A number is held as the bits of its IEEE 754 double.
pub enum FieldValue {
    Missing,
    Text(String),
    Number(u64),
    Other,
}

/// The mathematical value of a [`FieldValue`].
pub ghost enum FieldView {
    Missing,
    Text(Seq<char>),
    Number(u64),
    Other,
}

impl View for FieldValue {
    type V = FieldView;

    open spec fn view(&self) -> FieldView {
        match self {
            FieldValue::Missing => FieldView::Missing,
            FieldValue::Text(s) => FieldView::Text(s@),
            FieldValue::Number(b) => FieldView::Number(*b),
            FieldValue::Other => FieldView::Other,
        }
    }
}

/// The raw configuration payload: what it holds under `name` and under
/// `temperature`. Other keys play no part.
pub struct ConfigPayload {
    pub name: FieldValue,
    pub temperature: FieldValue,
}

pub ghost struct PayloadView {
    pub name: FieldView,
    pub temperature: FieldView,
}

impl View for ConfigPayload {
    type V = PayloadView;

    open spec fn view(&self) -> PayloadView {
        PayloadView { name: self.name@, temperature: self.temperature@ }
    }
}

/// A decoded configuration. The temperature is the bits of a finite double.
pub struct Config {
    pub name: String,
    pub temperature_bits: u64,
}

pub ghost struct ConfigView {
    pub name: Seq<char>,
    pub temperature_bits: u64,
}

impl View for Config {
    type V = ConfigView;

    open spec fn view(&self) -> ConfigView {
        ConfigView { name: self.name@, temperature_bits: self.temperature_bits }
    }
}

/// Why a payload does not decode into a [`Config`].
#[derive(Debug, Clone, Copy, PartialEq, Eq, Structural)]
pub enum ConfigError {
    MissingName,
    NameNotText,
    MissingTemperature,
    TemperatureNotNumber,
    TemperatureNotFinite,
}

/// The exponent field of a double: all ones for the infinities and NaN.
pub const EXPONENT_MASK: u64 = 0x7ff;

/// A double is finite exactly when its exponent field is not all ones.
pub open spec fn is_finite_bits(bits: u64) -> bool {
    (bits >> 52u64) & EXPONENT_MASK != EXPONENT_MASK
}

/// What decoding a payload gives: the name is checked before the temperature.
pub open spec fn decode_spec(p: PayloadView) -> Result<ConfigView, ConfigError> {
    match p.name {
        FieldView::Missing => Err(ConfigError::MissingName),
        FieldView::Text(name) => match p.temperature {
            FieldView::Missing => Err(ConfigError::MissingTemperature),
            FieldView::Number(bits) => if is_finite_bits(bits) {
                Ok(ConfigView { name, temperature_bits: bits })
            } else {
                Err(ConfigError::TemperatureNotFinite)
            },
            _ => Err(ConfigError::TemperatureNotNumber),
        },
        _ => Err(ConfigError::NameNotText),
    }
}

/// The mathematical value of a decoding result.
pub open spec fn decode_result_view(r: Result<Config, ConfigError>) -> Result<ConfigView, ConfigError> {
    match r {
        Ok(c) => Ok(c@),
        Err(e) => Err(e),
    }
}

/// Whether the double with these bits is finite.
pub fn is_finite(bits: u64) -> (r: bool)
    ensures
        r == is_finite_bits(bits),
{
    (bits >> 52u64) & EXPONENT_MASK != EXPONENT_MASK
}

/// Decodes a payload into a configuration: it succeeds exactly when `name`
/// is text and `temperature` is a finite number, and then keeps both as given.
pub fn decode_config(payload: ConfigPayload) -> (r: Result<Config, ConfigError>)
    ensures
        decode_result_view(r) == decode_spec(payload@),
{
    match payload.name {
        FieldValue::Missing => Err(ConfigError::MissingName),
        FieldValue::Text(name) => match payload.temperature {
            FieldValue::Missing => Err(ConfigError::MissingTemperature),
            FieldValue::Number(bits) => {
                if is_finite(bits) {
                    Ok(Config { name, temperature_bits: bits })
                } else {
                    Err(ConfigError::TemperatureNotFinite)
                }
            },
            _ => Err(ConfigError::TemperatureNotNumber),
        },
        _ => Err(ConfigError::NameNotText),
    }
}

/// A payload whose name is text and whose temperature is a finite number
/// decodes into exactly that name and that temperature.
pub proof fn lemma_well_formed_round_trip(name: Seq<char>, bits: u64)
    requires
        is_finite_bits(bits),
    ensures
        decode_spec(PayloadView { name: FieldView::Text(name), temperature: FieldView::Number(bits) })
            == Ok::<ConfigView, ConfigError>(ConfigView { name, temperature_bits: bits }),
{
}

/// A payload that lacks the name or the temperature, or holds either with the
/// wrong type, does not decode.
pub proof fn lemma_malformed_fails(p: PayloadView)
    requires
        !(p.name is Text && p.temperature is Number),
    ensures
        decode_spec(p) is Err,
{
}

} // verus!

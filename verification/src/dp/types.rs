//! Data-point types: what a data point is, what values it takes.

use vstd::prelude::*;
use crate::text::{i32_to_decimal, int_decimal, nat_decimal, u64_to_decimal};

verus! {

/// The data type of a data point.
#[derive(Debug, Clone)]
pub enum DpType {
    /// On/off.
    Bool,
    /// An integer bounded by `min` and `max`, both inclusive.
    Int { min: i32, max: i32 },
    /// One of a list of named choices, stored as its index.
    Enum(Vec<String>),
    /// Free text of at most `max_len` bytes (UTF-8).
    StringType { max_len: usize },
}

/// The definition of one data point.
#[derive(Debug, Clone)]
pub struct DpDefinition {
    /// Identifier of the data point.
    pub id: u8,
    /// Human-readable name.
    pub name: &'static str,
    /// Data type.
    pub dp_type: DpType,
    /// Whether clients may write it.
    pub writable: bool,
}

/// The current value of a data point.
#[derive(Debug, PartialEq)]
pub enum DpValue {
    Bool(bool),
    Int(i32),
    Enum(u8),
    Str(String),
}

/// The mathematical value of a [`DpValue`]: its text taken as characters.
pub enum DpValueView {
    Bool(bool),
    Int(i32),
    Enum(u8),
    Str(Seq<char>),
}

impl View for DpValue {
    type V = DpValueView;

    open spec fn view(&self) -> DpValueView {
        match self {
            DpValue::Bool(b) => DpValueView::Bool(*b),
            DpValue::Int(v) => DpValueView::Int(*v),
            DpValue::Enum(i) => DpValueView::Enum(*i),
            DpValue::Str(s) => DpValueView::Str(s@),
        }
    }
}

impl Clone for DpValue {
    fn clone(&self) -> (res: Self)
        ensures
            res@ == self@,
    {
        match self {
            DpValue::Bool(b) => DpValue::Bool(*b),
            DpValue::Int(v) => DpValue::Int(*v),
            DpValue::Enum(i) => DpValue::Enum(*i),
            DpValue::Str(s) => DpValue::Str(s.clone()),
        }
    }
}

/// The text that displays a value: `true`/`false`, the number in decimal,
/// or the text itself.
pub open spec fn display_text(v: DpValueView) -> Seq<char> {
    match v {
        DpValueView::Bool(b) => if b {
            "true"@
        } else {
            "false"@
        },
        DpValueView::Int(x) => int_decimal(x as int),
        DpValueView::Enum(i) => nat_decimal(i as nat),
        DpValueView::Str(s) => s,
    }
}

impl DpValue {
    /// The value as it is displayed.
    pub fn to_display_string(&self) -> (res: String)
        ensures
            res@ == display_text(self@),
    {
        match self {
            DpValue::Bool(b) => if *b {
                String::from_str("true")
            } else {
                String::from_str("false")
            },
            DpValue::Int(x) => i32_to_decimal(*x),
            DpValue::Enum(i) => u64_to_decimal(*i as u64),
            DpValue::Str(s) => s.clone(),
        }
    }

    /// The boolean held, or `None` when the value is not a `Bool`.
    pub fn as_bool(&self) -> (res: Option<bool>)
        ensures
            res == (match self@ {
                DpValueView::Bool(b) => Some(b),
                _ => None,
            }),
    {
        if let DpValue::Bool(v) = self {
            Some(*v)
        } else {
            None
        }
    }

    /// The integer held, or `None` when the value is not an `Int`.
    pub fn as_int(&self) -> (res: Option<i32>)
        ensures
            res == (match self@ {
                DpValueView::Int(v) => Some(v),
                _ => None,
            }),
    {
        if let DpValue::Int(v) = self {
            Some(*v)
        } else {
            None
        }
    }
}


/// Number of bytes in the UTF-8 encoding of `s`, as `str::len` returns it.
pub open spec fn utf8_len(s: Seq<char>) -> usize {
    vstd::utf8::encode_utf8(s).len() as usize
}

/// Why a write to a data point was refused.
#[derive(Debug, PartialEq)]
pub enum DpError {
    /// No data point has this identifier.
    NotFound { id: u8 },
    /// The data point is read-only.
    NotWritable { id: u8 },
    /// The integer lies outside `[min, max]`.
    OutOfRange { id: u8, value: i32, min: i32, max: i32 },
    /// The enum index is not below the number of choices.
    EnumIndexOutOfRange { id: u8, index: u8, variants: usize },
    /// The text is longer than allowed (lengths in bytes).
    StringTooLong { id: u8, len: usize, max_len: usize },
    /// The value is of another type than the data point.
    TypeMismatch { id: u8 },
}

/// The safe initial value of a data point of type `t`.
pub open spec fn default_value(t: DpType) -> DpValueView {
    match t {
        DpType::Bool => DpValueView::Bool(false),
        DpType::Int { min, .. } => DpValueView::Int(min),
        DpType::Enum(_) => DpValueView::Enum(0),
        DpType::StringType { .. } => DpValueView::Str(Seq::empty()),
    }
}

/// The error that `value` meets when written to the data point `def`, if any.
pub open spec fn validation_error(def: DpDefinition, value: DpValueView) -> Option<DpError> {
    match def.dp_type {
        DpType::Bool => match value {
            DpValueView::Bool(_) => None,
            _ => Some(DpError::TypeMismatch { id: def.id }),
        },
        DpType::Int { min, max } => match value {
            DpValueView::Int(v) => if min <= v && v <= max {
                None
            } else {
                Some(DpError::OutOfRange { id: def.id, value: v, min, max })
            },
            _ => Some(DpError::TypeMismatch { id: def.id }),
        },
        DpType::Enum(variants) => match value {
            DpValueView::Enum(idx) => if (idx as int) < variants@.len() {
                None
            } else {
                Some(
                    DpError::EnumIndexOutOfRange {
                        id: def.id,
                        index: idx,
                        variants: variants@.len() as usize,
                    },
                )
            },
            _ => Some(DpError::TypeMismatch { id: def.id }),
        },
        DpType::StringType { max_len } => match value {
            DpValueView::Str(s) => if utf8_len(s) <= max_len {
                None
            } else {
                Some(
                    DpError::StringTooLong { id: def.id, len: utf8_len(s), max_len },
                )
            },
            _ => Some(DpError::TypeMismatch { id: def.id }),
        },
    }
}

/// A definition whose type admits at least one value: integer bounds in
/// order, at least one enum choice.
pub open spec fn definition_wf(def: DpDefinition) -> bool {
    match def.dp_type {
        DpType::Int { min, max } => min <= max,
        DpType::Enum(variants) => variants@.len() > 0,
        _ => true,
    }
}

/// The default value of a well-formed definition fits it.
pub proof fn lemma_default_value_fits(def: DpDefinition)
    requires
        definition_wf(def),
    ensures
        value_fits(def, default_value(def.dp_type)),
{
}

/// `value` fits the type and bounds of `def`.
pub open spec fn value_fits(def: DpDefinition, value: DpValueView) -> bool {
    validation_error(def, value) is None
}

/// What fitting a data point means, for each type: any boolean fits a
/// boolean data point; an integer fits exactly when it lies within the
/// bounds; an enum index exactly when it is below the number of choices; a
/// text exactly when it is at most the longest length in bytes. A value of
/// another type never fits.
pub proof fn lemma_value_fits_meaning(def: DpDefinition, value: DpValueView)
    ensures
        def.dp_type is Bool ==> (value_fits(def, value) <==> value is Bool),
        def.dp_type matches DpType::Int { min, max } ==> (value_fits(def, value) <==> (value matches DpValueView::Int(
            v,
        ) && min <= v && v <= max)),
        def.dp_type matches DpType::Enum(variants) ==> (value_fits(def, value) <==> (value matches DpValueView::Enum(
            i,
        ) && (i as int) < variants@.len())),
        def.dp_type matches DpType::StringType { max_len } ==> (value_fits(def, value) <==> (
        value matches DpValueView::Str(s) && utf8_len(s) <= max_len)),
{
}

/// The initial value of a data point of type `t`.
pub fn default_value_of(t: &DpType) -> (res: DpValue)
    ensures
        res@ == default_value(*t),
{
    match t {
        DpType::Bool => DpValue::Bool(false),
        DpType::Int { min, .. } => DpValue::Int(*min),
        DpType::Enum(_) => DpValue::Enum(0),
        DpType::StringType { .. } => DpValue::Str(String::new()),
    }
}

/// Checks `value` against the type and bounds of `def`.
pub fn validate_value(def: &DpDefinition, value: &DpValue) -> (res: Result<(), DpError>)
    ensures
        res == (match validation_error(*def, value@) {
            None => Ok(()),
            Some(e) => Err(e),
        }),
{
    match (&def.dp_type, value) {
        (DpType::Bool, DpValue::Bool(_)) => Ok(()),
        (DpType::Int { min, max }, DpValue::Int(v)) => {
            if *v >= *min && *v <= *max {
                Ok(())
            } else {
                Err(DpError::OutOfRange { id: def.id, value: *v, min: *min, max: *max })
            }
        },
        (DpType::Enum(variants), DpValue::Enum(idx)) => {
            if (*idx as usize) < variants.len() {
                Ok(())
            } else {
                Err(DpError::EnumIndexOutOfRange { id: def.id, index: *idx, variants: variants.len() })
            }
        },
        (DpType::StringType { max_len }, DpValue::Str(s)) => {
            let len = s.as_str().len();
            if len <= *max_len {
                Ok(())
            } else {
                Err(DpError::StringTooLong { id: def.id, len, max_len: *max_len })
            }
        },
        _ => Err(DpError::TypeMismatch { id: def.id }),
    }
}

} // verus!

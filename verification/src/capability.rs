//! Raw capability values, and typed capabilities over them.

use vstd::prelude::*;

use crate::error::Error;
use crate::expand::{Context, Expand, Parameter};

verus! {

/// The raw value of a capability: a flag (always true when present), a
/// 32-bit number, or a byte string in the expansion language.  A string
/// value's bytes never include the NUL that terminates it on disk.
#[derive(Eq, PartialEq, Clone, Debug)]
pub enum Value {
    /// A flag capability; present means true.
    True,
    /// A numeric capability.
    Number(i32),
    /// A string capability, kept as raw bytes.
    String(Vec<u8>),
}

/// The mathematical value of a [`Value`].
#[verifier::ext_equal]
pub ghost enum ValueV {
    True,
    Num(i32),
    Str(Seq<u8>),
}

impl View for Value {
    type V = ValueV;

    open spec fn view(&self) -> ValueV {
        match self {
            Value::True => ValueV::True,
            Value::Number(n) => ValueV::Num(*n),
            Value::String(v) => ValueV::Str(v@),
        }
    }
}

/// The view of an optional borrowed value.
pub open spec fn opt_value_view(value: Option<&Value>) -> Option<ValueV> {
    match value {
        Some(v) => Some(v@),
        None => None,
    }
}

impl Expand for Value {
    /// Only a string value can be expanded.
    open spec fn expansion_input(&self) -> Option<Seq<u8>> {
        match self {
            Value::String(b) => Some(b@),
            _ => None,
        }
    }

    fn expand(&self, parameters: &[Parameter], context: &mut Context) -> (r: Result<
        Vec<u8>,
        Error,
    >) {
        match self {
            Value::String(buffer) => crate::expand::expand(
                buffer.as_slice(),
                parameters,
                context,
            ),
            _ => Err(Error::Expand(crate::error::Expand::TypeMismatch)),
        }
    }
}

/// Copies a byte buffer.
fn copy_value_bytes(src: &Vec<u8>) -> (r: Vec<u8>)
    ensures
        r@ == src@,
{
    let mut out: Vec<u8> = Vec::new();
    let mut i: usize = 0;
    while i < src.len()
        invariant
            i <= src.len(),
            out@ == src@.take(i as int),
        decreases src.len() - i,
    {
        out.push(src[i]);
        assert(out@ =~= src@.take(i as int + 1));
        i = i + 1;
    }
    assert(out@ =~= src@);
    out
}

/// A typed capability: a canonical long name, and the typed reading of a
/// raw [`Value`] under that name.
pub trait Capability: Sized {
    /// The capability's long name.
    spec fn spec_name() -> Seq<char>;

    /// How a stored value (or its absence) reads as this capability:
    /// exactly the results [`Capability::parse`] may return.
    spec fn parses_to(value: Option<ValueV>, r: Option<Self>) -> bool;

    /// What [`Capability::into`] turns this capability into.
    spec fn spec_into(&self) -> Option<ValueV>;

    /// The capability's long name.
    fn name() -> (r: &'static str)
        ensures
            r@ == Self::spec_name(),
    ;

    /// Reads the typed capability out of a stored value.
    fn parse(value: Option<&Value>) -> (r: Option<Self>)
        ensures
            Self::parses_to(opt_value_view(value), r),
    ;

    /// Turns the typed capability back into a raw value, when it has one.
    fn into(self) -> (r: Option<Value>)
        ensures
            match (r, self.spec_into()) {
                (Some(v), Some(vv)) => v@ == vv,
                (None, None) => true,
                _ => false,
            },
    ;
}

/// The `auto_left_margin` flag capability; absent reads as false.
#[derive(Eq, PartialEq, Copy, Clone, Debug)]
pub struct AutoLeftMargin(pub bool);

impl Capability for AutoLeftMargin {
    open spec fn spec_name() -> Seq<char> {
        "auto_left_margin"@
    }

    open spec fn parses_to(value: Option<ValueV>, r: Option<Self>) -> bool {
        r == Some(AutoLeftMargin(value == Some(ValueV::True)))
    }

    open spec fn spec_into(&self) -> Option<ValueV> {
        if self.0 {
            Some(ValueV::True)
        } else {
            None
        }
    }

    fn name() -> (r: &'static str) {
        "auto_left_margin"
    }

    fn parse(value: Option<&Value>) -> (r: Option<Self>) {
        match value {
            Some(Value::True) => Some(AutoLeftMargin(true)),
            _ => Some(AutoLeftMargin(false)),
        }
    }

    fn into(self) -> (r: Option<Value>) {
        if self.0 {
            Some(Value::True)
        } else {
            None
        }
    }
}

/// The `auto_right_margin` flag capability; absent reads as false.
#[derive(Eq, PartialEq, Copy, Clone, Debug)]
pub struct AutoRightMargin(pub bool);

impl Capability for AutoRightMargin {
    open spec fn spec_name() -> Seq<char> {
        "auto_right_margin"@
    }

    open spec fn parses_to(value: Option<ValueV>, r: Option<Self>) -> bool {
        r == Some(AutoRightMargin(value == Some(ValueV::True)))
    }

    open spec fn spec_into(&self) -> Option<ValueV> {
        if self.0 {
            Some(ValueV::True)
        } else {
            None
        }
    }

    fn name() -> (r: &'static str) {
        "auto_right_margin"
    }

    fn parse(value: Option<&Value>) -> (r: Option<Self>) {
        match value {
            Some(Value::True) => Some(AutoRightMargin(true)),
            _ => Some(AutoRightMargin(false)),
        }
    }

    fn into(self) -> (r: Option<Value>) {
        if self.0 {
            Some(Value::True)
        } else {
            None
        }
    }
}

/// The `back_color_erase` flag capability; absent reads as false.
#[derive(Eq, PartialEq, Copy, Clone, Debug)]
pub struct BackColorErase(pub bool);

impl Capability for BackColorErase {
    open spec fn spec_name() -> Seq<char> {
        "back_color_erase"@
    }

    open spec fn parses_to(value: Option<ValueV>, r: Option<Self>) -> bool {
        r == Some(BackColorErase(value == Some(ValueV::True)))
    }

    open spec fn spec_into(&self) -> Option<ValueV> {
        if self.0 {
            Some(ValueV::True)
        } else {
            None
        }
    }

    fn name() -> (r: &'static str) {
        "back_color_erase"
    }

    fn parse(value: Option<&Value>) -> (r: Option<Self>) {
        match value {
            Some(Value::True) => Some(BackColorErase(true)),
            _ => Some(BackColorErase(false)),
        }
    }

    fn into(self) -> (r: Option<Value>) {
        if self.0 {
            Some(Value::True)
        } else {
            None
        }
    }
}

/// The `Tc` flag capability; absent reads as false.
#[derive(Eq, PartialEq, Copy, Clone, Debug)]
pub struct TrueColor(pub bool);

impl Capability for TrueColor {
    open spec fn spec_name() -> Seq<char> {
        "Tc"@
    }

    open spec fn parses_to(value: Option<ValueV>, r: Option<Self>) -> bool {
        r == Some(TrueColor(value == Some(ValueV::True)))
    }

    open spec fn spec_into(&self) -> Option<ValueV> {
        if self.0 {
            Some(ValueV::True)
        } else {
            None
        }
    }

    fn name() -> (r: &'static str) {
        "Tc"
    }

    fn parse(value: Option<&Value>) -> (r: Option<Self>) {
        match value {
            Some(Value::True) => Some(TrueColor(true)),
            _ => Some(TrueColor(false)),
        }
    }

    fn into(self) -> (r: Option<Value>) {
        if self.0 {
            Some(Value::True)
        } else {
            None
        }
    }
}

/// The `columns` numeric capability.
#[derive(Eq, PartialEq, Copy, Clone, Debug)]
pub struct Columns(pub i32);

impl Capability for Columns {
    open spec fn spec_name() -> Seq<char> {
        "columns"@
    }

    open spec fn parses_to(value: Option<ValueV>, r: Option<Self>) -> bool {
        r == match value {
            Some(ValueV::Num(n)) => Some(Columns(n)),
            _ => None::<Columns>,
        }
    }

    open spec fn spec_into(&self) -> Option<ValueV> {
        Some(ValueV::Num(self.0))
    }

    fn name() -> (r: &'static str) {
        "columns"
    }

    fn parse(value: Option<&Value>) -> (r: Option<Self>) {
        match value {
            Some(Value::Number(n)) => Some(Columns(*n)),
            _ => None,
        }
    }

    fn into(self) -> (r: Option<Value>) {
        Some(Value::Number(self.0))
    }
}

/// The `lines` numeric capability.
#[derive(Eq, PartialEq, Copy, Clone, Debug)]
pub struct Lines(pub i32);

impl Capability for Lines {
    open spec fn spec_name() -> Seq<char> {
        "lines"@
    }

    open spec fn parses_to(value: Option<ValueV>, r: Option<Self>) -> bool {
        r == match value {
            Some(ValueV::Num(n)) => Some(Lines(n)),
            _ => None::<Lines>,
        }
    }

    open spec fn spec_into(&self) -> Option<ValueV> {
        Some(ValueV::Num(self.0))
    }

    fn name() -> (r: &'static str) {
        "lines"
    }

    fn parse(value: Option<&Value>) -> (r: Option<Self>) {
        match value {
            Some(Value::Number(n)) => Some(Lines(*n)),
            _ => None,
        }
    }

    fn into(self) -> (r: Option<Value>) {
        Some(Value::Number(self.0))
    }
}

/// The `max_colors` numeric capability.
#[derive(Eq, PartialEq, Copy, Clone, Debug)]
pub struct MaxColors(pub i32);

impl Capability for MaxColors {
    open spec fn spec_name() -> Seq<char> {
        "max_colors"@
    }

    open spec fn parses_to(value: Option<ValueV>, r: Option<Self>) -> bool {
        r == match value {
            Some(ValueV::Num(n)) => Some(MaxColors(n)),
            _ => None::<MaxColors>,
        }
    }

    open spec fn spec_into(&self) -> Option<ValueV> {
        Some(ValueV::Num(self.0))
    }

    fn name() -> (r: &'static str) {
        "max_colors"
    }

    fn parse(value: Option<&Value>) -> (r: Option<Self>) {
        match value {
            Some(Value::Number(n)) => Some(MaxColors(*n)),
            _ => None,
        }
    }

    fn into(self) -> (r: Option<Value>) {
        Some(Value::Number(self.0))
    }
}

/// The `clear_screen` string capability, holding its raw bytes.
#[derive(Eq, PartialEq, Clone, Debug)]
pub struct ClearScreen(pub Vec<u8>);

impl Capability for ClearScreen {
    open spec fn spec_name() -> Seq<char> {
        "clear_screen"@
    }

    open spec fn parses_to(value: Option<ValueV>, r: Option<Self>) -> bool {
        match value {
            Some(ValueV::Str(b)) => match r {
                Some(c) => c.0@ == b,
                None => false,
            },
            _ => match r {
                Some(_) => false,
                None => true,
            },
        }
    }

    open spec fn spec_into(&self) -> Option<ValueV> {
        Some(ValueV::Str(self.0@))
    }

    fn name() -> (r: &'static str) {
        "clear_screen"
    }

    fn parse(value: Option<&Value>) -> (r: Option<Self>) {
        match value {
            Some(Value::String(b)) => Some(ClearScreen(copy_value_bytes(b))),
            _ => None,
        }
    }

    fn into(self) -> (r: Option<Value>) {
        Some(Value::String(self.0))
    }
}

impl ClearScreen {
    /// The capability's bytes.
    pub fn as_bytes(&self) -> (r: &[u8])
        ensures
            r@ == self.0@,
    {
        self.0.as_slice()
    }
}

/// The `flash_screen` string capability, holding its raw bytes.
#[derive(Eq, PartialEq, Clone, Debug)]
pub struct FlashScreen(pub Vec<u8>);

impl Capability for FlashScreen {
    open spec fn spec_name() -> Seq<char> {
        "flash_screen"@
    }

    open spec fn parses_to(value: Option<ValueV>, r: Option<Self>) -> bool {
        match value {
            Some(ValueV::Str(b)) => match r {
                Some(c) => c.0@ == b,
                None => false,
            },
            _ => match r {
                Some(_) => false,
                None => true,
            },
        }
    }

    open spec fn spec_into(&self) -> Option<ValueV> {
        Some(ValueV::Str(self.0@))
    }

    fn name() -> (r: &'static str) {
        "flash_screen"
    }

    fn parse(value: Option<&Value>) -> (r: Option<Self>) {
        match value {
            Some(Value::String(b)) => Some(FlashScreen(copy_value_bytes(b))),
            _ => None,
        }
    }

    fn into(self) -> (r: Option<Value>) {
        Some(Value::String(self.0))
    }
}

impl FlashScreen {
    /// The capability's bytes.
    pub fn as_bytes(&self) -> (r: &[u8])
        ensures
            r@ == self.0@,
    {
        self.0.as_slice()
    }
}

/// The `set_a_foreground` string capability, holding its raw bytes.
#[derive(Eq, PartialEq, Clone, Debug)]
pub struct SetAForeground(pub Vec<u8>);

impl Capability for SetAForeground {
    open spec fn spec_name() -> Seq<char> {
        "set_a_foreground"@
    }

    open spec fn parses_to(value: Option<ValueV>, r: Option<Self>) -> bool {
        match value {
            Some(ValueV::Str(b)) => match r {
                Some(c) => c.0@ == b,
                None => false,
            },
            _ => match r {
                Some(_) => false,
                None => true,
            },
        }
    }

    open spec fn spec_into(&self) -> Option<ValueV> {
        Some(ValueV::Str(self.0@))
    }

    fn name() -> (r: &'static str) {
        "set_a_foreground"
    }

    fn parse(value: Option<&Value>) -> (r: Option<Self>) {
        match value {
            Some(Value::String(b)) => Some(SetAForeground(copy_value_bytes(b))),
            _ => None,
        }
    }

    fn into(self) -> (r: Option<Value>) {
        Some(Value::String(self.0))
    }
}

impl SetAForeground {
    /// The capability's bytes.
    pub fn as_bytes(&self) -> (r: &[u8])
        ensures
            r@ == self.0@,
    {
        self.0.as_slice()
    }
}

/// The `set_a_background` string capability, holding its raw bytes.
#[derive(Eq, PartialEq, Clone, Debug)]
pub struct SetABackground(pub Vec<u8>);

impl Capability for SetABackground {
    open spec fn spec_name() -> Seq<char> {
        "set_a_background"@
    }

    open spec fn parses_to(value: Option<ValueV>, r: Option<Self>) -> bool {
        match value {
            Some(ValueV::Str(b)) => match r {
                Some(c) => c.0@ == b,
                None => false,
            },
            _ => match r {
                Some(_) => false,
                None => true,
            },
        }
    }

    open spec fn spec_into(&self) -> Option<ValueV> {
        Some(ValueV::Str(self.0@))
    }

    fn name() -> (r: &'static str) {
        "set_a_background"
    }

    fn parse(value: Option<&Value>) -> (r: Option<Self>) {
        match value {
            Some(Value::String(b)) => Some(SetABackground(copy_value_bytes(b))),
            _ => None,
        }
    }

    fn into(self) -> (r: Option<Value>) {
        Some(Value::String(self.0))
    }
}

impl SetABackground {
    /// The capability's bytes.
    pub fn as_bytes(&self) -> (r: &[u8])
        ensures
            r@ == self.0@,
    {
        self.0.as_slice()
    }
}

/// The `exit_attribute_mode` string capability, holding its raw bytes.
#[derive(Eq, PartialEq, Clone, Debug)]
pub struct ExitAttributeMode(pub Vec<u8>);

impl Capability for ExitAttributeMode {
    open spec fn spec_name() -> Seq<char> {
        "exit_attribute_mode"@
    }

    open spec fn parses_to(value: Option<ValueV>, r: Option<Self>) -> bool {
        match value {
            Some(ValueV::Str(b)) => match r {
                Some(c) => c.0@ == b,
                None => false,
            },
            _ => match r {
                Some(_) => false,
                None => true,
            },
        }
    }

    open spec fn spec_into(&self) -> Option<ValueV> {
        Some(ValueV::Str(self.0@))
    }

    fn name() -> (r: &'static str) {
        "exit_attribute_mode"
    }

    fn parse(value: Option<&Value>) -> (r: Option<Self>) {
        match value {
            Some(Value::String(b)) => Some(ExitAttributeMode(copy_value_bytes(b))),
            _ => None,
        }
    }

    fn into(self) -> (r: Option<Value>) {
        Some(Value::String(self.0))
    }
}

impl ExitAttributeMode {
    /// The capability's bytes.
    pub fn as_bytes(&self) -> (r: &[u8])
        ensures
            r@ == self.0@,
    {
        self.0.as_slice()
    }
}

} // verus!

//! Options that the parser did not recognise: their dotted names and
//! their values.
use crate::descriptor;
use crate::text::same_chars;
use itertools::Itertools;
use vstd::prelude::*;
use vstd::string::*;

verus! {

/// `value` as it is written in an option name: within parentheses where it
/// names an extension.
pub open spec fn spec_formatted(value: Seq<char>, is_extension: bool) -> Seq<char> {
    if is_extension {
        seq!['('] + value + seq![')']
    } else {
        value
    }
}

/// The segments `parts` with `sep` between each two of them.
pub open spec fn joined(parts: Seq<Seq<char>>, sep: Seq<char>) -> Seq<char>
    decreases parts.len(),
{
    if parts.len() == 0 {
        Seq::empty()
    } else if parts.len() == 1 {
        parts[0]
    } else {
        joined(parts.drop_last(), sep) + sep + parts.last()
    }
}

/// The characters of the string in `o`; none where it is unset.
pub open spec fn chars_or_empty(o: Option<String>) -> Seq<char> {
    match o {
        Some(s) => s@,
        None => Seq::empty(),
    }
}

/// `Itertools::join` of the `itertools` crate, on the strings `parts`: the
/// strings in order, with `sep` written between each two of them, and the
/// empty string for no strings.
#[verifier::external_body]
fn join_strings(parts: &Vec<String>, sep: &str) -> (r: String)
    ensures
        r@ == joined(parts@.map_values(|s: String| s@), sep@),
{
    parts.iter().join(sep)
}

/// One segment of a dot-separated option name. `{ ["foo", false],
/// ["bar.baz", true], ["qux", false] }` stands for `"foo.(bar.baz).qux"`.
#[derive(Clone, Debug, PartialEq, Eq, Hash)]
pub struct NamePart {
    pub value: String,
    pub formatted_value: String,
    pub is_extension: bool,
}

impl NamePart {
    /// The formatted value is the value as written in the name.
    pub open spec fn wf(&self) -> bool {
        self.formatted_value@ == spec_formatted(self.value@, self.is_extension)
    }

    /// The segment that the descriptor `part` describes: an unset name is
    /// empty and an unset flag is `false`.
    pub fn from_descriptor(part: descriptor::NamePart) -> (r: NamePart)
        ensures
            r.value@ == chars_or_empty(part.name_part),
            r.is_extension == (part.is_extension == Some(true)),
            r.wf(),
    {
        let is_extension = match part.is_extension {
            Some(b) => b,
            None => false,
        };
        let value = match part.name_part {
            Some(s) => s,
            None => String::new(),
        };
        let formatted_value = if is_extension {
            proof {
                reveal_strlit("(");
                reveal_strlit(")");
            }
            assert("("@ =~= seq!['(']);
            assert(")"@ =~= seq![')']);
            String::from_str("(").concat(value.as_str()).concat(")")
        } else {
            value.clone()
        };
        NamePart { value, formatted_value, is_extension }
    }

    pub fn value(&self) -> (r: &str)
        ensures
            r@ == self.value@,
    {
        self.value.as_str()
    }

    /// Whether the segment names an extension (written in parentheses in
    /// option names in `.proto` files).
    pub fn is_extension(&self) -> (r: bool)
        ensures
            r == self.is_extension,
    {
        self.is_extension
    }

    /// The value as written in the name: within parentheses where the
    /// segment names an extension.
    pub fn formatted_value(&self) -> (r: &str)
        ensures
            r@ == self.formatted_value@,
    {
        self.formatted_value.as_str()
    }

    pub fn as_str(&self) -> (r: &str)
        ensures
            r@ == self.value@,
    {
        self.value.as_str()
    }

    /// The segment as it is written in an option name.
    pub fn to_string(&self) -> (r: String)
        ensures
            r@ == spec_formatted(self.value@, self.is_extension),
    {
        if self.is_extension {
            proof {
                reveal_strlit("(");
                reveal_strlit(")");
            }
            assert("("@ =~= seq!['(']);
            assert(")"@ =~= seq![')']);
            String::from_str("(").concat(self.value.as_str()).concat(")")
        } else {
            self.value.clone()
        }
    }
}

/// The segments of an option name.
#[derive(Clone, Debug)]
pub struct NameParts {
    parts: Vec<NamePart>,
}

impl View for NameParts {
    type V = Seq<NamePart>;

    closed spec fn view(&self) -> Seq<NamePart> {
        self.parts@
    }
}

/// The formatted values of `parts`.
pub open spec fn formatted_values(parts: Seq<NamePart>) -> Seq<Seq<char>> {
    parts.map_values(|p: NamePart| p.formatted_value@)
}

impl NameParts {
    pub fn new(parts: Vec<NamePart>) -> (r: NameParts)
        ensures
            r@ == parts@,
    {
        NameParts { parts }
    }

    pub fn iter(&self) -> (r: std::slice::Iter<'_, NamePart>)
        ensures
            vstd::std_specs::slice::into_iter_elts(r) == self@,
    {
        let it = self.parts.as_slice().iter();
        proof {
            broadcast use vstd::std_specs::slice::axiom_spec_slice_iter;

            assert(self.parts@.as_ref().unref() =~= self.parts@);
        }
        it
    }

    pub fn get(&self, idx: usize) -> (r: Option<&NamePart>)
        ensures
            idx < self@.len() ==> r == Some(&self@[idx as int]),
            idx >= self@.len() ==> r is None,
    {
        if idx < self.parts.len() {
            Some(&self.parts[idx])
        } else {
            None
        }
    }

    pub fn len(&self) -> (r: usize)
        ensures
            r == self@.len(),
    {
        self.parts.len()
    }

    pub fn is_empty(&self) -> (r: bool)
        ensures
            r == (self@.len() == 0),
    {
        self.parts.len() == 0
    }

    /// Whether some segment has the value `part`.
    pub fn contains(&self, part: &str) -> (r: bool)
        ensures
            r == exists|i: int| 0 <= i < self@.len() && #[trigger] self@[i].value@ == part@,
    {
        let mut i: usize = 0;
        while i < self.parts.len()
            invariant
                i <= self.parts@.len(),
                forall|j: int| 0 <= j < i ==> #[trigger] self.parts@[j].value@ != part@,
            decreases self.parts@.len() - i,
        {
            if same_chars(self.parts[i].value.as_str(), part) {
                assert(self@[i as int].value@ == part@);
                return true;
            }
            i = i + 1;
        }
        false
    }

    /// The formatted values of the segments, joined by `.`.
    pub fn formatted(&self) -> (r: String)
        ensures
            r@ == joined(formatted_values(self@), seq!['.']),
    {
        let mut values: Vec<String> = Vec::new();
        let mut i: usize = 0;
        while i < self.parts.len()
            invariant
                i <= self.parts@.len(),
                values@.len() == i,
                forall|k: int| 0 <= k < i ==> #[trigger] values@[k]@ == self.parts@[k].formatted_value@,
            decreases self.parts@.len() - i,
        {
            values.push(self.parts[i].formatted_value.clone());
            i = i + 1;
        }
        assert(values@.map_values(|s: String| s@) =~= formatted_values(self.parts@));
        proof {
            reveal_strlit(".");
        }
        assert("."@ =~= seq!['.']);
        join_strings(&values, ".")
    }

    /// The option name as it is written: the same as [`NameParts::formatted`].
    pub fn to_string(&self) -> (r: String)
        ensures
            r@ == joined(formatted_values(self@), seq!['.']),
    {
        self.formatted()
    }
}


/// The value of an uninterpreted option. A `double` is held by its IEEE 754
/// bits.
#[derive(Clone, Debug, PartialEq)]
pub enum UninterpretedValue {
    Identifier(String),
    PositiveInt(u64),
    NegativeInt(i64),
    Double(u64),
    String(Vec<u8>),
    Aggregate(String),
}

impl UninterpretedValue {
    pub fn is_identifier(&self) -> (r: bool)
        ensures
            r == (self is Identifier),
    {
        match self {
            UninterpretedValue::Identifier(..) => true,
            _ => false,
        }
    }

    pub fn as_identifier(&self) -> (r: Option<&String>)
        ensures
            match self {
                UninterpretedValue::Identifier(v) => r == Some(v),
                _ => r is None,
            },
    {
        match self {
            UninterpretedValue::Identifier(v) => Some(v),
            _ => None,
        }
    }

    pub fn try_into_identifier(self) -> (r: Result<String, UninterpretedValue>)
        ensures
            match self {
                UninterpretedValue::Identifier(v) => r == Ok::<String, UninterpretedValue>(v),
                _ => r == Err::<String, UninterpretedValue>(self),
            },
    {
        match self {
            UninterpretedValue::Identifier(v) => Ok(v),
            _ => Err(self),
        }
    }

    pub fn is_positive_int(&self) -> (r: bool)
        ensures
            r == (self is PositiveInt),
    {
        match self {
            UninterpretedValue::PositiveInt(..) => true,
            _ => false,
        }
    }

    pub fn as_positive_int(&self) -> (r: Option<&u64>)
        ensures
            match self {
                UninterpretedValue::PositiveInt(v) => r == Some(v),
                _ => r is None,
            },
    {
        match self {
            UninterpretedValue::PositiveInt(v) => Some(v),
            _ => None,
        }
    }

    pub fn try_into_positive_int(self) -> (r: Result<u64, UninterpretedValue>)
        ensures
            match self {
                UninterpretedValue::PositiveInt(v) => r == Ok::<u64, UninterpretedValue>(v),
                _ => r == Err::<u64, UninterpretedValue>(self),
            },
    {
        match self {
            UninterpretedValue::PositiveInt(v) => Ok(v),
            _ => Err(self),
        }
    }

    pub fn is_negative_int(&self) -> (r: bool)
        ensures
            r == (self is NegativeInt),
    {
        match self {
            UninterpretedValue::NegativeInt(..) => true,
            _ => false,
        }
    }

    pub fn as_negative_int(&self) -> (r: Option<&i64>)
        ensures
            match self {
                UninterpretedValue::NegativeInt(v) => r == Some(v),
                _ => r is None,
            },
    {
        match self {
            UninterpretedValue::NegativeInt(v) => Some(v),
            _ => None,
        }
    }

    pub fn try_into_negative_int(self) -> (r: Result<i64, UninterpretedValue>)
        ensures
            match self {
                UninterpretedValue::NegativeInt(v) => r == Ok::<i64, UninterpretedValue>(v),
                _ => r == Err::<i64, UninterpretedValue>(self),
            },
    {
        match self {
            UninterpretedValue::NegativeInt(v) => Ok(v),
            _ => Err(self),
        }
    }

    pub fn is_double(&self) -> (r: bool)
        ensures
            r == (self is Double),
    {
        match self {
            UninterpretedValue::Double(..) => true,
            _ => false,
        }
    }

    pub fn as_double(&self) -> (r: Option<&u64>)
        ensures
            match self {
                UninterpretedValue::Double(v) => r == Some(v),
                _ => r is None,
            },
    {
        match self {
            UninterpretedValue::Double(v) => Some(v),
            _ => None,
        }
    }

    pub fn try_into_double(self) -> (r: Result<u64, UninterpretedValue>)
        ensures
            match self {
                UninterpretedValue::Double(v) => r == Ok::<u64, UninterpretedValue>(v),
                _ => r == Err::<u64, UninterpretedValue>(self),
            },
    {
        match self {
            UninterpretedValue::Double(v) => Ok(v),
            _ => Err(self),
        }
    }

    pub fn is_string(&self) -> (r: bool)
        ensures
            r == (self is String),
    {
        match self {
            UninterpretedValue::String(..) => true,
            _ => false,
        }
    }

    pub fn as_string(&self) -> (r: Option<&Vec<u8>>)
        ensures
            match self {
                UninterpretedValue::String(v) => r == Some(v),
                _ => r is None,
            },
    {
        match self {
            UninterpretedValue::String(v) => Some(v),
            _ => None,
        }
    }

    pub fn try_into_string(self) -> (r: Result<Vec<u8>, UninterpretedValue>)
        ensures
            match self {
                UninterpretedValue::String(v) => r == Ok::<Vec<u8>, UninterpretedValue>(v),
                _ => r == Err::<Vec<u8>, UninterpretedValue>(self),
            },
    {
        match self {
            UninterpretedValue::String(v) => Ok(v),
            _ => Err(self),
        }
    }

    pub fn is_aggregate(&self) -> (r: bool)
        ensures
            r == (self is Aggregate),
    {
        match self {
            UninterpretedValue::Aggregate(..) => true,
            _ => false,
        }
    }

    pub fn as_aggregate(&self) -> (r: Option<&String>)
        ensures
            match self {
                UninterpretedValue::Aggregate(v) => r == Some(v),
                _ => r is None,
            },
    {
        match self {
            UninterpretedValue::Aggregate(v) => Some(v),
            _ => None,
        }
    }

    pub fn try_into_aggregate(self) -> (r: Result<String, UninterpretedValue>)
        ensures
            match self {
                UninterpretedValue::Aggregate(v) => r == Ok::<String, UninterpretedValue>(v),
                _ => r == Err::<String, UninterpretedValue>(self),
            },
    {
        match self {
            UninterpretedValue::Aggregate(v) => Ok(v),
            _ => Err(self),
        }
    }
}

/// The value that the descriptor `o` gives: the first that is set of its
/// identifier, positive integer, negative integer, double, string and
/// aggregate values, in that order; the positive integer 0 where none is.
pub open spec fn spec_value(o: descriptor::UninterpretedOption) -> UninterpretedValue {
    if o.identifier_value is Some {
        UninterpretedValue::Identifier(o.identifier_value->0)
    } else if o.positive_int_value is Some {
        UninterpretedValue::PositiveInt(o.positive_int_value->0)
    } else if o.negative_int_value is Some {
        UninterpretedValue::NegativeInt(o.negative_int_value->0)
    } else if o.double_value_bits is Some {
        UninterpretedValue::Double(o.double_value_bits->0)
    } else if o.string_value is Some {
        UninterpretedValue::String(o.string_value->0)
    } else if o.aggregate_value is Some {
        UninterpretedValue::Aggregate(o.aggregate_value->0)
    } else {
        UninterpretedValue::PositiveInt(0)
    }
}

/// `p` is the name segment that the descriptor `d` describes.
pub open spec fn part_from(p: NamePart, d: descriptor::NamePart) -> bool {
    &&& p.value@ == chars_or_empty(d.name_part)
    &&& p.is_extension == (d.is_extension == Some(true))
    &&& p.wf()
}

/// An option that the parser did not recognise.
#[derive(Clone, Debug, PartialEq)]
pub struct UninterpretedOption {
    pub name: Vec<NamePart>,
    pub value: UninterpretedValue,
}

/// `u` is the option that the descriptor `d` describes.
pub open spec fn option_from(u: UninterpretedOption, d: descriptor::UninterpretedOption) -> bool {
    &&& u.name@.len() == d.name@.len()
    &&& forall|k: int| 0 <= k < d.name@.len() ==> part_from(#[trigger] u.name@[k], d.name@[k])
    &&& u.value == spec_value(d)
}

impl UninterpretedOption {
    /// The option that the descriptor `option` describes.
    pub fn from_descriptor(option: descriptor::UninterpretedOption) -> (r: UninterpretedOption)
        ensures
            option_from(r, option),
    {
        let ghost d = option;
        let ghost parts = option.name@;
        let descriptor::UninterpretedOption {
            name: descriptor_name,
            identifier_value,
            positive_int_value,
            negative_int_value,
            double_value_bits,
            string_value,
            aggregate_value,
        } = option;
        let mut name: Vec<NamePart> = Vec::new();
        for part in it: descriptor_name.into_iter()
            invariant
                it.seq() == parts,
                name@.len() == it.index(),
                forall|k: int| 0 <= k < it.index() ==> part_from(#[trigger] name@[k], parts[k]),
        {
            name.push(NamePart::from_descriptor(part));
        }
        let value = if let Some(v) = identifier_value {
            UninterpretedValue::Identifier(v)
        } else if let Some(v) = positive_int_value {
            UninterpretedValue::PositiveInt(v)
        } else if let Some(v) = negative_int_value {
            UninterpretedValue::NegativeInt(v)
        } else if let Some(v) = double_value_bits {
            UninterpretedValue::Double(v)
        } else if let Some(v) = string_value {
            UninterpretedValue::String(v)
        } else if let Some(v) = aggregate_value {
            UninterpretedValue::Aggregate(v)
        } else {
            UninterpretedValue::PositiveInt(0)
        };
        UninterpretedOption { name, value }
    }

    /// The options that the descriptors `options` describe, in order.
    pub fn from_descriptors(options: Vec<descriptor::UninterpretedOption>) -> (r: Vec<
        UninterpretedOption,
    >)
        ensures
            r@.len() == options@.len(),
            forall|k: int| 0 <= k < options@.len() ==> option_from(#[trigger] r@[k], options@[k]),
    {
        let ghost all = options@;
        let mut out: Vec<UninterpretedOption> = Vec::new();
        for option in it: options.into_iter()
            invariant
                it.seq() == all,
                out@.len() == it.index(),
                forall|k: int| 0 <= k < it.index() ==> option_from(#[trigger] out@[k], all[k]),
        {
            out.push(UninterpretedOption::from_descriptor(option));
        }
        out
    }

    pub fn name(&self) -> (r: &[NamePart])
        ensures
            r@ == self.name@,
    {
        self.name.as_slice()
    }

    pub fn value(&self) -> (r: &UninterpretedValue)
        ensures
            *r == self.value,
    {
        &self.value
    }
}


impl AsRef<str> for NamePart {
    /// The segment's value as it is given (see [`NamePart::as_str`]).
    fn as_ref(&self) -> (r: &str)
        ensures
            r@ == self.value@,
    {
        self.as_str()
    }
}

impl<'a> std::iter::IntoIterator for &'a NameParts {
    type Item = &'a NamePart;

    type IntoIter = std::slice::Iter<'a, NamePart>;

    /// The parts in order (see [`NameParts::iter`]).
    fn into_iter(self) -> (r: std::slice::Iter<'a, NamePart>)
        ensures
            vstd::std_specs::slice::into_iter_elts(r) == self@,
    {
        self.iter()
    }
}

} // verus!

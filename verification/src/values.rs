//! The typed value marshaling layer: the closed tagged-value representation
//! used on the backend wire, the open loose-document entries used at the HTTP
//! boundary, and the bidirectional conversion between them, including the
//! derivation of a decimal's base-10 scale from its rendered digit string.

use vstd::prelude::*;
use vstd::std_specs::iter::IteratorSpec;

verus! {

/// The closed, strongly typed scalar carried on the RPC wire: exactly one
/// variant is active. `Unset` stands for an entry that carried no usable
/// value (no populated slot, or a type hint whose matching slot was absent);
/// callers must treat it as "no value provided".
#[derive(Debug, PartialEq)]
pub enum TaggedValue {
    Unset,
    Integer { integer: i32 },
    Decimal { digits: String, scale: i32 },
    Boolean { boolean: bool },
    Text { text: String },
    Date { date: String },
}

/// Mathematical model of `TaggedValue`: strings become character sequences.
pub enum TaggedValueModel {
    Unset,
    Integer { integer: i32 },
    Decimal { digits: Seq<char>, scale: i32 },
    Boolean { boolean: bool },
    Text { text: Seq<char> },
    Date { date: Seq<char> },
}

impl View for TaggedValue {
    type V = TaggedValueModel;

    open spec fn view(&self) -> TaggedValueModel {
        match self {
            TaggedValue::Unset => TaggedValueModel::Unset,
            TaggedValue::Integer { integer } => TaggedValueModel::Integer { integer: *integer },
            TaggedValue::Decimal { digits, scale } => TaggedValueModel::Decimal {
                digits: digits@,
                scale: *scale,
            },
            TaggedValue::Boolean { boolean } => TaggedValueModel::Boolean { boolean: *boolean },
            TaggedValue::Text { text } => TaggedValueModel::Text { text: text@ },
            TaggedValue::Date { date } => TaggedValueModel::Date { date: date@ },
        }
    }
}

impl DeepView for TaggedValue {
    type V = TaggedValueModel;

    open spec fn deep_view(&self) -> TaggedValueModel {
        self.view()
    }
}

impl Clone for TaggedValue {
    fn clone(&self) -> (result: Self)
        ensures
            result@ == self@,
    {
        match self {
            TaggedValue::Unset => TaggedValue::Unset,
            TaggedValue::Integer { integer } => TaggedValue::Integer { integer: *integer },
            TaggedValue::Decimal { digits, scale } => TaggedValue::Decimal {
                digits: digits.clone(),
                scale: *scale,
            },
            TaggedValue::Boolean { boolean } => TaggedValue::Boolean { boolean: *boolean },
            TaggedValue::Text { text } => TaggedValue::Text { text: text.clone() },
            TaggedValue::Date { date } => TaggedValue::Date { date: date.clone() },
        }
    }
}

/// Count of characters after the first decimal point of a rendered decimal:
/// the explicit base-10 scale that travels on the wire beside the digit
/// string. A string without a point has scale 0.
pub open spec fn scale_of(digits: Seq<char>) -> int
    decreases digits.len(),
{
    if digits.len() == 0 {
        0
    } else if digits[0] == '.' {
        digits.len() - 1
    } else {
        scale_of(digits.subrange(1, digits.len() as int))
    }
}

/// The scale as the wire carries it: clamped to what an `i32` can hold.
pub open spec fn wire_scale_of(digits: Seq<char>) -> i32 {
    if scale_of(digits) <= i32::MAX {
        scale_of(digits) as i32
    } else {
        i32::MAX
    }
}

proof fn lemma_scale_without_point(digits: Seq<char>)
    requires
        forall|k: int| 0 <= k < digits.len() ==> digits[k] != '.',
    ensures
        scale_of(digits) == 0,
    decreases digits.len(),
{
    if digits.len() != 0 {
        lemma_scale_without_point(digits.subrange(1, digits.len() as int));
    }
}

proof fn lemma_scale_at_point(digits: Seq<char>, point: int)
    requires
        0 <= point < digits.len(),
        digits[point] == '.',
        forall|k: int| 0 <= k < point ==> digits[k] != '.',
    ensures
        scale_of(digits) == digits.len() - 1 - point,
    decreases point,
{
    if point > 0 {
        lemma_scale_at_point(digits.subrange(1, digits.len() as int), point - 1);
    }
}

/// Walks the rendered digit string once and returns the number of characters
/// after its first decimal point, clamped to `i32`; 0 when no point occurs.
pub fn derive_scale(digits: &str) -> (scale: i32)
    ensures
        scale == wire_scale_of(digits@),
{
    broadcast use vstd::string::axiom_spec_iter, vstd::string::next_postcondition;

    let mut it = digits.chars();
    let ghost full: Seq<char> = digits@;
    let mut count: i32 = 0;
    let mut seen_point: bool = false;
    let ghost mut i: int = 0;
    let ghost mut point: int = 0;
    loop
        invariant
            full == digits@,
            it.remaining() =~= full.skip(i),
            0 <= i <= full.len(),
            seen_point ==> 0 <= point < i && full[point] == '.' && (forall|k: int|
                0 <= k < point ==> full[k] != '.') && count == if i - 1 - point <= i32::MAX {
                i - 1 - point
            } else {
                i32::MAX as int
            },
            !seen_point ==> count == 0 && (forall|k: int| 0 <= k < i ==> full[k] != '.'),
        decreases full.len() - i,
    {
        match it.next() {
            Some(c) => {
                if seen_point {
                    if count < i32::MAX {
                        count = count + 1;
                    }
                } else if c == '.' {
                    seen_point = true;
                    proof {
                        point = i;
                    }
                }
                proof {
                    i = i + 1;
                }
            },
            None => {
                proof {
                    if seen_point {
                        lemma_scale_at_point(full, point);
                    } else {
                        lemma_scale_without_point(full);
                    }
                }
                return count;
            },
        }
    }
}

/// One key/value pair of an entity's attribute set as the RPC wire carries
/// it: the key beside a tagged value.
#[derive(Debug, PartialEq)]
pub struct KeyValue {
    pub key: String,
    pub value: TaggedValue,
}

/// Mathematical model of `KeyValue`.
pub struct KeyValueModel {
    pub key: Seq<char>,
    pub value: TaggedValueModel,
}

impl View for KeyValue {
    type V = KeyValueModel;

    open spec fn view(&self) -> KeyValueModel {
        KeyValueModel { key: self.key@, value: self.value@ }
    }
}

impl DeepView for KeyValue {
    type V = KeyValueModel;

    open spec fn deep_view(&self) -> KeyValueModel {
        self.view()
    }
}

impl Clone for KeyValue {
    fn clone(&self) -> (result: Self)
        ensures
            result@ == self@,
    {
        KeyValue { key: self.key.clone(), value: self.value.clone() }
    }
}

/// One entry of a loose document: an open record with one optional slot per
/// possible type, of which at most one is meaningfully populated, plus an
/// optional type discriminator naming the intended type. The decimal slot
/// holds the value's canonical base-10 rendering; the floating approximation
/// used for JSON transport is converted at the HTTP boundary, outside this
/// library.
#[derive(Debug, PartialEq)]
pub struct KeyAndValue {
    pub key: String,
    pub integer_value: Option<i32>,
    pub boolean_value: Option<bool>,
    pub string_value: Option<String>,
    pub date_value: Option<String>,
    pub decimal_value: Option<String>,
    pub value_type: Option<String>,
}

/// Mathematical model of `KeyAndValue`.
pub struct KeyAndValueModel {
    pub key: Seq<char>,
    pub integer_value: Option<i32>,
    pub boolean_value: Option<bool>,
    pub string_value: Option<Seq<char>>,
    pub date_value: Option<Seq<char>>,
    pub decimal_value: Option<Seq<char>>,
    pub value_type: Option<Seq<char>>,
}

impl View for KeyAndValue {
    type V = KeyAndValueModel;

    open spec fn view(&self) -> KeyAndValueModel {
        KeyAndValueModel {
            key: self.key@,
            integer_value: self.integer_value,
            boolean_value: self.boolean_value,
            string_value: self.string_value.deep_view(),
            date_value: self.date_value.deep_view(),
            decimal_value: self.decimal_value.deep_view(),
            value_type: self.value_type.deep_view(),
        }
    }
}

impl DeepView for KeyAndValue {
    type V = KeyAndValueModel;

    open spec fn deep_view(&self) -> KeyAndValueModel {
        self.view()
    }
}

impl Clone for KeyAndValue {
    fn clone(&self) -> (result: Self)
        ensures
            result@ == self@,
    {
        KeyAndValue {
            key: self.key.clone(),
            integer_value: clone_option_i32(&self.integer_value),
            boolean_value: clone_option_bool(&self.boolean_value),
            string_value: clone_option_string(&self.string_value),
            date_value: clone_option_string(&self.date_value),
            decimal_value: clone_option_string(&self.decimal_value),
            value_type: clone_option_string(&self.value_type),
        }
    }
}

impl Default for KeyAndValue {
    /// An entry with an empty key and every slot unpopulated.
    fn default() -> (result: Self)
        ensures
            result@.key == Seq::<char>::empty(),
            result@.integer_value is None,
            result@.boolean_value is None,
            result@.string_value is None,
            result@.date_value is None,
            result@.decimal_value is None,
            result@.value_type is None,
    {
        KeyAndValue {
            key: String::new(),
            integer_value: None,
            boolean_value: None,
            string_value: None,
            date_value: None,
            decimal_value: None,
            value_type: None,
        }
    }
}

fn clone_option_i32(source: &Option<i32>) -> (result: Option<i32>)
    ensures
        result == *source,
{
    match source {
        Some(v) => Some(*v),
        None => None,
    }
}

fn clone_option_bool(source: &Option<bool>) -> (result: Option<bool>)
    ensures
        result == *source,
{
    match source {
        Some(v) => Some(*v),
        None => None,
    }
}

fn clone_option_string(source: &Option<String>) -> (result: Option<String>)
    ensures
        result.deep_view() == source.deep_view(),
{
    match source {
        Some(v) => Some(v.clone()),
        None => None,
    }
}

/// The tagged value that an explicit type hint selects: the hint names the
/// slot to read, and a hint that is unknown or whose slot is unpopulated
/// yields `Unset`.
pub open spec fn hinted_tag_of(entry: KeyAndValueModel, hint: Seq<char>) -> TaggedValueModel {
    if hint == "INTEGER"@ {
        match entry.integer_value {
            Some(v) => TaggedValueModel::Integer { integer: v },
            None => TaggedValueModel::Unset,
        }
    } else if hint == "DECIMAL"@ {
        match entry.decimal_value {
            Some(d) => TaggedValueModel::Decimal { digits: d, scale: wire_scale_of(d) },
            None => TaggedValueModel::Unset,
        }
    } else if hint == "BOOLEAN"@ {
        match entry.boolean_value {
            Some(b) => TaggedValueModel::Boolean { boolean: b },
            None => TaggedValueModel::Unset,
        }
    } else if hint == "STRING"@ {
        match entry.string_value {
            Some(s) => TaggedValueModel::Text { text: s },
            None => TaggedValueModel::Unset,
        }
    } else if hint == "DATE"@ {
        match entry.date_value {
            Some(d) => TaggedValueModel::Date { date: d },
            None => TaggedValueModel::Unset,
        }
    } else {
        TaggedValueModel::Unset
    }
}

/// The tagged value inferred from which slots are populated, checked in the
/// fixed precedence order integer, decimal, boolean, string, date; an entry
/// with no populated slot yields `Unset`.
pub open spec fn inferred_tag_of(entry: KeyAndValueModel) -> TaggedValueModel {
    if entry.integer_value is Some {
        TaggedValueModel::Integer { integer: entry.integer_value->0 }
    } else if entry.decimal_value is Some {
        TaggedValueModel::Decimal {
            digits: entry.decimal_value->0,
            scale: wire_scale_of(entry.decimal_value->0),
        }
    } else if entry.boolean_value is Some {
        TaggedValueModel::Boolean { boolean: entry.boolean_value->0 }
    } else if entry.string_value is Some {
        TaggedValueModel::Text { text: entry.string_value->0 }
    } else if entry.date_value is Some {
        TaggedValueModel::Date { date: entry.date_value->0 }
    } else {
        TaggedValueModel::Unset
    }
}

/// The tagged value a loose entry denotes: an explicit hint is authoritative
/// when present; otherwise the populated slot is found by precedence.
pub open spec fn tagged_of(entry: KeyAndValueModel) -> TaggedValueModel {
    match entry.value_type {
        Some(hint) => hinted_tag_of(entry, hint),
        None => inferred_tag_of(entry),
    }
}

/// The wire pair a loose entry converts to: the key beside its tagged value.
pub open spec fn wire_pair_of(entry: KeyAndValueModel) -> KeyValueModel {
    KeyValueModel { key: entry.key, value: tagged_of(entry) }
}

/// The loose entry a tagged value converts back to: exactly the matching
/// slot is populated and the discriminator names the tag; an `Unset` value
/// yields an entry with no slot populated and no discriminator.
pub open spec fn loose_of(key: Seq<char>, value: TaggedValueModel) -> KeyAndValueModel {
    match value {
        TaggedValueModel::Unset => KeyAndValueModel {
            key,
            integer_value: None,
            boolean_value: None,
            string_value: None,
            date_value: None,
            decimal_value: None,
            value_type: None,
        },
        TaggedValueModel::Integer { integer } => KeyAndValueModel {
            key,
            integer_value: Some(integer),
            boolean_value: None,
            string_value: None,
            date_value: None,
            decimal_value: None,
            value_type: Some("INTEGER"@),
        },
        TaggedValueModel::Decimal { digits, scale: _ } => KeyAndValueModel {
            key,
            integer_value: None,
            boolean_value: None,
            string_value: None,
            date_value: None,
            decimal_value: Some(digits),
            value_type: Some("DECIMAL"@),
        },
        TaggedValueModel::Boolean { boolean } => KeyAndValueModel {
            key,
            integer_value: None,
            boolean_value: Some(boolean),
            string_value: None,
            date_value: None,
            decimal_value: None,
            value_type: Some("BOOLEAN"@),
        },
        TaggedValueModel::Text { text } => KeyAndValueModel {
            key,
            integer_value: None,
            boolean_value: None,
            string_value: Some(text),
            date_value: None,
            decimal_value: None,
            value_type: Some("STRING"@),
        },
        TaggedValueModel::Date { date } => KeyAndValueModel {
            key,
            integer_value: None,
            boolean_value: None,
            string_value: None,
            date_value: Some(date),
            decimal_value: None,
            value_type: Some("DATE"@),
        },
    }
}

/// True when a `String` equals a literal, character for character.
fn str_eq(value: &String, literal: &str) -> (result: bool)
    ensures
        result == (value@ == literal@),
{
    let owned = literal.to_owned();
    *value == owned
}

impl KeyAndValue {
    /// Converts a loose entry into the wire pair the backend expects. An
    /// explicit `value_type` discriminator is authoritative; without one the
    /// populated slot is found in the precedence order integer, decimal,
    /// boolean, string, date. A decimal's scale is derived from its rendered
    /// digit string.
    pub fn to_grpc_value(self) -> (result: KeyValue)
        ensures
            result@ == wire_pair_of(self@),
    {
        let KeyAndValue {
            key,
            integer_value,
            boolean_value,
            string_value,
            date_value,
            decimal_value,
            value_type,
        } = self;
        let value = match value_type {
            Some(hint) => {
                if str_eq(&hint, "INTEGER") {
                    match integer_value {
                        Some(v) => TaggedValue::Integer { integer: v },
                        None => TaggedValue::Unset,
                    }
                } else if str_eq(&hint, "DECIMAL") {
                    match decimal_value {
                        Some(d) => {
                            let scale = derive_scale(d.as_str());
                            TaggedValue::Decimal { digits: d, scale }
                        },
                        None => TaggedValue::Unset,
                    }
                } else if str_eq(&hint, "BOOLEAN") {
                    match boolean_value {
                        Some(b) => TaggedValue::Boolean { boolean: b },
                        None => TaggedValue::Unset,
                    }
                } else if str_eq(&hint, "STRING") {
                    match string_value {
                        Some(s) => TaggedValue::Text { text: s },
                        None => TaggedValue::Unset,
                    }
                } else if str_eq(&hint, "DATE") {
                    match date_value {
                        Some(d) => TaggedValue::Date { date: d },
                        None => TaggedValue::Unset,
                    }
                } else {
                    TaggedValue::Unset
                }
            },
            None => {
                if integer_value.is_some() {
                    TaggedValue::Integer { integer: integer_value.unwrap() }
                } else if decimal_value.is_some() {
                    let d = decimal_value.unwrap();
                    let scale = derive_scale(d.as_str());
                    TaggedValue::Decimal { digits: d, scale }
                } else if boolean_value.is_some() {
                    TaggedValue::Boolean { boolean: boolean_value.unwrap() }
                } else if string_value.is_some() {
                    TaggedValue::Text { text: string_value.unwrap() }
                } else if date_value.is_some() {
                    TaggedValue::Date { date: date_value.unwrap() }
                } else {
                    TaggedValue::Unset
                }
            },
        };
        KeyValue { key, value }
    }

    /// Converts a wire pair received from the backend back into a loose
    /// entry: exactly the slot matching the tag is populated, and
    /// `value_type` names the tag.
    pub fn from_grpc_value(key: String, value: TaggedValue) -> (result: KeyAndValue)
        ensures
            result@ == loose_of(key@, value@),
    {
        match value {
            TaggedValue::Unset => KeyAndValue {
                key,
                integer_value: None,
                boolean_value: None,
                string_value: None,
                date_value: None,
                decimal_value: None,
                value_type: None,
            },
            TaggedValue::Integer { integer } => KeyAndValue {
                key,
                integer_value: Some(integer),
                boolean_value: None,
                string_value: None,
                date_value: None,
                decimal_value: None,
                value_type: Some("INTEGER".to_owned()),
            },
            TaggedValue::Decimal { digits, scale: _ } => KeyAndValue {
                key,
                integer_value: None,
                boolean_value: None,
                string_value: None,
                date_value: None,
                decimal_value: Some(digits),
                value_type: Some("DECIMAL".to_owned()),
            },
            TaggedValue::Boolean { boolean } => KeyAndValue {
                key,
                integer_value: None,
                boolean_value: Some(boolean),
                string_value: None,
                date_value: None,
                decimal_value: None,
                value_type: Some("BOOLEAN".to_owned()),
            },
            TaggedValue::Text { text } => KeyAndValue {
                key,
                integer_value: None,
                boolean_value: None,
                string_value: Some(text),
                date_value: None,
                decimal_value: None,
                value_type: Some("STRING".to_owned()),
            },
            TaggedValue::Date { date } => KeyAndValue {
                key,
                integer_value: None,
                boolean_value: None,
                string_value: None,
                date_value: Some(date),
                decimal_value: None,
                value_type: Some("DATE".to_owned()),
            },
        }
    }
}

/// The wire pairs a whole attribute set converts to, in order.
pub open spec fn wire_pairs_of(entries: Seq<KeyAndValueModel>) -> Seq<KeyValueModel> {
    entries.map_values(|entry: KeyAndValueModel| wire_pair_of(entry))
}

/// Converts a whole attribute set into wire pairs, keeping the order.
pub fn convert_attributes(entries: Vec<KeyAndValue>) -> (result: Vec<KeyValue>)
    ensures
        result.deep_view() == wire_pairs_of(entries.deep_view()),
{
    let mut result: Vec<KeyValue> = Vec::new();
    let mut index: usize = 0;
    while index < entries.len()
        invariant
            index <= entries.len(),
            result.deep_view() =~= wire_pairs_of(entries.deep_view().take(index as int)),
        decreases entries.len() - index,
    {
        let entry = entries[index].clone();
        proof {
            assert(entry@ == entries.deep_view()[index as int]);
            assert(result.deep_view().len() == index as int);
            assert(result@.len() == index as int);
        }
        result.push(entry.to_grpc_value());
        proof {
            let dv = entries.deep_view();
            assert(result@.len() == index as int + 1);
            assert(result.deep_view().len() == index as int + 1);
            assert(result.deep_view()[index as int] == wire_pair_of(dv[index as int]));
            assert(forall|k: int|
                0 <= k < index ==> result.deep_view()[k] == wire_pairs_of(
                    dv.take(index as int),
                )[k]);
            assert(forall|k: int|
                0 <= k < index + 1 ==> result.deep_view()[k] == wire_pairs_of(
                    dv.take(index as int + 1),
                )[k]);
        }
        index += 1;
    }
    assert(entries.deep_view().take(entries.len() as int) =~= entries.deep_view());
    result
}

/// A loose entry is canonical when its discriminator names one of the five
/// types and exactly the matching slot is populated.
pub open spec fn canonical_entry(entry: KeyAndValueModel) -> bool {
    ||| (entry.value_type == Some("INTEGER"@) && entry.integer_value is Some
        && entry.boolean_value is None && entry.string_value is None && entry.date_value is None
        && entry.decimal_value is None)
    ||| (entry.value_type == Some("DECIMAL"@) && entry.decimal_value is Some
        && entry.integer_value is None && entry.boolean_value is None && entry.string_value is None
        && entry.date_value is None)
    ||| (entry.value_type == Some("BOOLEAN"@) && entry.boolean_value is Some
        && entry.integer_value is None && entry.string_value is None && entry.date_value is None
        && entry.decimal_value is None)
    ||| (entry.value_type == Some("STRING"@) && entry.string_value is Some
        && entry.integer_value is None && entry.boolean_value is None && entry.date_value is None
        && entry.decimal_value is None)
    ||| (entry.value_type == Some("DATE"@) && entry.date_value is Some
        && entry.integer_value is None && entry.boolean_value is None && entry.string_value is None
        && entry.decimal_value is None)
}

/// The five discriminator names are pairwise distinct character sequences.
proof fn lemma_hint_names_distinct()
    ensures
        "INTEGER"@ != "DECIMAL"@,
        "INTEGER"@ != "BOOLEAN"@,
        "INTEGER"@ != "STRING"@,
        "INTEGER"@ != "DATE"@,
        "DECIMAL"@ != "BOOLEAN"@,
        "DECIMAL"@ != "STRING"@,
        "DECIMAL"@ != "DATE"@,
        "BOOLEAN"@ != "STRING"@,
        "BOOLEAN"@ != "DATE"@,
        "STRING"@ != "DATE"@,
{
    reveal_strlit("INTEGER");
    reveal_strlit("DECIMAL");
    reveal_strlit("BOOLEAN");
    reveal_strlit("STRING");
    reveal_strlit("DATE");
    assert("INTEGER"@[0] == 'I');
    assert("DECIMAL"@[0] == 'D');
    assert("BOOLEAN"@[0] == 'B');
    assert("STRING"@[0] == 'S');
    assert("DATE"@[0] == 'D');
    assert("DECIMAL"@.len() == 7);
    assert("DATE"@.len() == 4);
}

/// A tagged value is consistent when a decimal's scale is the one its digit
/// string derives; every value the conversion produces is consistent.
pub open spec fn consistent_value(value: TaggedValueModel) -> bool {
    match value {
        TaggedValueModel::Decimal { digits, scale } => scale == wire_scale_of(digits),
        _ => true,
    }
}

/// Every tagged value the inbound conversion produces is consistent: the
/// scale it carries is always the one derived from its digit string.
pub proof fn lemma_converted_values_consistent(entry: KeyAndValueModel)
    ensures
        consistent_value(tagged_of(entry)),
{
}

/// Round trip seen from the wire: a consistent tagged value sent to the
/// client as a loose entry converts back to exactly the same tagged value,
/// since the entry's discriminator names the tag and the scale is derived
/// again from the digit string kept verbatim.
pub proof fn lemma_wire_round_trip(key: Seq<char>, value: TaggedValueModel)
    requires
        consistent_value(value),
    ensures
        tagged_of(loose_of(key, value)) == value,
{
    lemma_hint_names_distinct();
}

/// Round trip: converting a canonical loose entry to the wire form and back
/// restores the entry exactly, key included. The digit string of a decimal
/// is kept verbatim on the wire, so even decimals round-trip exactly here;
/// the lossy step is the floating approximation handed to JSON clients,
/// which is produced outside this library.
pub proof fn lemma_loose_round_trip(entry: KeyAndValueModel)
    requires
        canonical_entry(entry),
    ensures
        loose_of(wire_pair_of(entry).key, wire_pair_of(entry).value) == entry,
{
    lemma_hint_names_distinct();
}

} // verus!

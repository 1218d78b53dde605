//! JSON values and their texts.

use vstd::prelude::*;

verus! {

/// A JSON value of `serde_json`, which the library holds without looking into it.
#[verifier::external_type_specification]
#[verifier::external_body]
pub struct ExValue(serde_json::Value);

/// The compact JSON text that `serde_json::to_string` writes for a value.
pub uninterp spec fn value_json(value: serde_json::Value) -> Seq<char>;

/// Calls [`serde_json::to_string`] on a [`serde_json::Value`].
///
/// The text is a function of the value alone. Writing it does not fail: the keys of the objects in
/// such a value are strings, and the text goes into memory. What the text looks like is not stated.
#[verifier::external_body]
pub(crate) fn value_to_string(value: &serde_json::Value) -> (text: String)
    ensures
        text@ == value_json(*value),
{
    serde_json::to_string(value).expect("should serialize to string")
}

/// A JSON value of `serde_json` that is kept as its text, exactly as it was written.
#[verifier::external_type_specification]
#[verifier::external_body]
pub struct ExRawValue(serde_json::value::RawValue);

/// The text that a raw JSON value keeps.
pub uninterp spec fn raw_json(value: Box<serde_json::value::RawValue>) -> Seq<char>;

/// Calls [`serde_json::value::RawValue::get`].
///
/// It gives the text that the value keeps, which `serde_json` also writes, unchanged, wherever such a
/// value is part of what it serializes. That the text is one of a JSON value is not stated.
#[verifier::external_body]
pub(crate) fn raw_to_string(value: &Box<serde_json::value::RawValue>) -> (text: String)
    ensures
        text@ == raw_json(*value),
{
    value.get().to_owned()
}

/// The texts, with a comma between each and the next.
pub open spec fn comma_separated(items: Seq<Seq<char>>) -> Seq<char>
    decreases items.len(),
{
    if items.len() == 0 {
        seq![]
    } else if items.len() == 1 {
        items[0]
    } else {
        comma_separated(items.drop_last()) + ","@ + items.last()
    }
}

/// The JSON text of a list whose items have these texts.
pub open spec fn list_json(items: Seq<Seq<char>>) -> Seq<char> {
    "["@ + comma_separated(items) + "]"@
}

/// The contents of strings.
pub open spec fn contents(items: Seq<String>) -> Seq<Seq<char>> {
    items.map_values(|item: String| item@)
}

/// The JSON text of a list whose items have these texts.
pub fn serialize_list(items: &Vec<String>) -> (text: String)
    ensures
        text@ == list_json(contents(items@)),
{
    let ghost all = contents(items@);
    let mut text = "[".to_owned();
    let mut i: usize = 0;
    assert(all.take(0) == Seq::<Seq<char>>::empty());
    while i < items.len()
        invariant
            i <= items@.len(),
            all == contents(items@),
            text@ == "["@ + comma_separated(all.take(i as int)),
        decreases items@.len() - i,
    {
        assert(all.take(i + 1).drop_last() == all.take(i as int));
        if i > 0 {
            text.append(",");
        }
        text.append(items[i].as_str());
        i += 1;
        assert(text@ == "["@ + comma_separated(all.take(i as int)));
    }
    assert(all.take(i as int) == all);
    text.append("]");
    text
}

/// A list without items is `[]`. One item more comes before the closing bracket, behind a comma
/// unless it is the first, and changes nothing of what was written before it.
pub proof fn lists_grow_item_by_item(items: Seq<Seq<char>>, item: Seq<char>)
    ensures
        list_json(Seq::empty()) == "[]"@,
        list_json(items).len() >= 2,
        list_json(items.push(item)) == list_json(items).drop_last() + (if items.len() == 0 {
            seq![]
        } else {
            seq![',']
        }) + item + seq![']'],
{
    reveal_strlit("[");
    reveal_strlit("]");
    reveal_strlit(",");
    reveal_strlit("[]");
    assert(list_json(Seq::empty()) == "[]"@);
    assert(","@ == seq![',']);
    assert("]"@ == seq![']']);
    assert(items.push(item).drop_last() == items);
    assert(list_json(items).drop_last() == "["@ + comma_separated(items));
    if items.len() == 0 {
        assert(comma_separated(items.push(item)) == item);
        assert(list_json(items.push(item)) == list_json(items).drop_last() + seq![] + item + seq![
            ']',
        ]);
    } else {
        assert(list_json(items.push(item)) == list_json(items).drop_last() + seq![','] + item
            + seq![']']);
    }
}

/// The contents of strings are as many as the strings, and stand in their order.
pub proof fn contents_are_those_of_each(items: Seq<String>)
    ensures
        contents(items).len() == items.len(),
        forall|i: int| 0 <= i < items.len() ==> #[trigger] contents(items)[i] == items[i]@,
{
}

} // verus!

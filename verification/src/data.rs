use vstd::prelude::*;
use vstd::string::*;

verus! {

/// The kind of value that a settings item holds.
#[derive(Debug, PartialEq, Eq, Clone, Copy, Structural)]
pub enum DataType {
    String,
    Int,
    Double,
    Boolean,
    /// Map container
    Object,
    /// Array container
    Array,
}

/// The host's tag for a string item.
pub const OBS_DATA_STRING: u32 = 1;

/// The host's tag for a number item; the number tag tells integer from double.
pub const OBS_DATA_NUMBER: u32 = 2;

/// The host's tag for a boolean item.
pub const OBS_DATA_BOOLEAN: u32 = 3;

/// The host's tag for a nested object.
pub const OBS_DATA_OBJECT: u32 = 4;

/// The host's tag for an array of objects.
pub const OBS_DATA_ARRAY: u32 = 5;

/// The host's number tag for an integer.
pub const OBS_DATA_NUM_INT: u32 = 1;

/// The host's number tag for a double.
pub const OBS_DATA_NUM_DOUBLE: u32 = 2;

impl DataType {
    /// The kind that the host's pair of tags stands for, if it stands for one.
    pub open spec fn of_native(typ: u32, numtyp: u32) -> Option<DataType> {
        if typ == OBS_DATA_STRING {
            Some(DataType::String)
        } else if typ == OBS_DATA_NUMBER {
            if numtyp == OBS_DATA_NUM_INT {
                Some(DataType::Int)
            } else if numtyp == OBS_DATA_NUM_DOUBLE {
                Some(DataType::Double)
            } else {
                None
            }
        } else if typ == OBS_DATA_BOOLEAN {
            Some(DataType::Boolean)
        } else if typ == OBS_DATA_OBJECT {
            Some(DataType::Object)
        } else if typ == OBS_DATA_ARRAY {
            Some(DataType::Array)
        } else {
            None
        }
    }

    /// Reads the host's pair of tags; `None` for a pair that names no kind.
    pub fn from_native(typ: u32, numtyp: u32) -> (r: Option<DataType>)
        ensures
            r == Self::of_native(typ, numtyp),
    {
        if typ == OBS_DATA_STRING {
            Some(DataType::String)
        } else if typ == OBS_DATA_NUMBER {
            if numtyp == OBS_DATA_NUM_INT {
                Some(DataType::Int)
            } else if numtyp == OBS_DATA_NUM_DOUBLE {
                Some(DataType::Double)
            } else {
                None
            }
        } else if typ == OBS_DATA_BOOLEAN {
            Some(DataType::Boolean)
        } else if typ == OBS_DATA_OBJECT {
            Some(DataType::Object)
        } else if typ == OBS_DATA_ARRAY {
            Some(DataType::Array)
        } else {
            None
        }
    }

    /// Reads a pair of tags that is known to name a kind.
    pub fn new(typ: u32, numtyp: u32) -> (r: DataType)
        requires
            Self::of_native(typ, numtyp) is Some,
        ensures
            Some(r) == Self::of_native(typ, numtyp),
    {
        match Self::from_native(typ, numtyp) {
            Some(t) => t,
            None => DataType::String,
        }
    }
}

/// A double as the 64 bits of its IEEE-754 encoding.
#[derive(Debug, PartialEq, Eq, Clone, Copy, Structural)]
pub struct DoubleBits(pub u64);

/// A single as the 32 bits of its IEEE-754 encoding.
#[derive(Debug, PartialEq, Eq, Clone, Copy, Structural)]
pub struct FloatBits(pub u32);

/// The value of one settings item.
#[derive(Debug, PartialEq, Eq)]
pub enum DataValue {
    String(String),
    Int(i64),
    Double(DoubleBits),
    Boolean(bool),
    Object(DataObj),
    Array(DataArray),
}

impl DataValue {
    pub open spec fn spec_typ(&self) -> DataType {
        match self {
            DataValue::String(_) => DataType::String,
            DataValue::Int(_) => DataType::Int,
            DataValue::Double(_) => DataType::Double,
            DataValue::Boolean(_) => DataType::Boolean,
            DataValue::Object(_) => DataType::Object,
            DataValue::Array(_) => DataType::Array,
        }
    }

    /// The kind of the value.
    #[verifier::when_used_as_spec(spec_typ)]
    pub fn typ(&self) -> (r: DataType)
        ensures
            r == self.spec_typ(),
    {
        match self {
            DataValue::String(_) => DataType::String,
            DataValue::Int(_) => DataType::Int,
            DataValue::Double(_) => DataType::Double,
            DataValue::Boolean(_) => DataType::Boolean,
            DataValue::Object(_) => DataType::Object,
            DataValue::Array(_) => DataType::Array,
        }
    }
}

/// A named value of a settings document.
#[derive(Debug, PartialEq, Eq)]
pub struct DataItem {
    pub name: String,
    pub value: DataValue,
}

/// A type that one kind of settings item can be read as.
pub trait FromDataItem: Sized {
    /// The kind of item that the type is read from.
    spec fn spec_typ() -> DataType;

    /// What an item of that kind reads as.
    spec fn of_value(value: DataValue) -> Self;

    fn typ() -> (r: DataType)
        ensures
            r == Self::spec_typ(),
    ;

    /// Reads an item whose kind has been checked.
    fn from_item_unchecked(value: &DataValue) -> (r: Self)
        requires
            value.spec_typ() == Self::spec_typ(),
        ensures
            r == Self::of_value(*value),
    ;
}

impl FromDataItem for String {
    open spec fn spec_typ() -> DataType {
        DataType::String
    }

    open spec fn of_value(value: DataValue) -> String {
        value->String_0
    }

    fn typ() -> DataType {
        DataType::String
    }

    fn from_item_unchecked(value: &DataValue) -> String {
        match value {
            DataValue::String(s) => s.clone(),
            _ => String::new(),
        }
    }
}

impl FromDataItem for i64 {
    open spec fn spec_typ() -> DataType {
        DataType::Int
    }

    open spec fn of_value(value: DataValue) -> i64 {
        value->Int_0
    }

    fn typ() -> DataType {
        DataType::Int
    }

    fn from_item_unchecked(value: &DataValue) -> i64 {
        match value {
            DataValue::Int(v) => *v,
            _ => 0,
        }
    }
}

impl FromDataItem for DoubleBits {
    open spec fn spec_typ() -> DataType {
        DataType::Double
    }

    open spec fn of_value(value: DataValue) -> DoubleBits {
        value->Double_0
    }

    fn typ() -> DataType {
        DataType::Double
    }

    fn from_item_unchecked(value: &DataValue) -> DoubleBits {
        match value {
            DataValue::Double(v) => *v,
            _ => DoubleBits(0),
        }
    }
}

impl FromDataItem for bool {
    open spec fn spec_typ() -> DataType {
        DataType::Boolean
    }

    open spec fn of_value(value: DataValue) -> bool {
        value->Boolean_0
    }

    fn typ() -> DataType {
        DataType::Boolean
    }

    fn from_item_unchecked(value: &DataValue) -> bool {
        match value {
            DataValue::Boolean(v) => *v,
            _ => false,
        }
    }
}

/// A settings document: named values, each name at most once.
#[derive(Debug, PartialEq, Eq)]
pub struct DataObj {
    items: Vec<DataItem>,
}

/// An array of settings documents.
#[derive(Debug, PartialEq, Eq)]
pub struct DataArray {
    items: Vec<DataObj>,
}

/// The position of the item called `name` among `items`, or `items.len()`
/// where none has that name.
pub open spec fn position_of(items: Seq<DataItem>, name: Seq<char>) -> int
    decreases items.len(),
{
    if items.len() == 0 {
        0
    } else if items[0].name@ == name {
        0
    } else {
        1 + position_of(items.subrange(1, items.len() as int), name)
    }
}

/// `position_of` is the least index whose item has the name.
pub proof fn lemma_position_of(items: Seq<DataItem>, name: Seq<char>)
    ensures
        0 <= position_of(items, name) <= items.len(),
        forall|j: int| 0 <= j < position_of(items, name) ==> items[j].name@ != name,
        position_of(items, name) < items.len() ==> items[position_of(items, name)].name@ == name,
    decreases items.len(),
{
    if items.len() > 0 && items[0].name@ != name {
        let rest = items.subrange(1, items.len() as int);
        lemma_position_of(rest, name);
        assert forall|j: int| 0 <= j < position_of(items, name) implies items[j].name@
            != name by {
            if j > 0 {
                assert(rest[j - 1] == items[j]);
            }
        }
        if position_of(items, name) < items.len() {
            assert(rest[position_of(rest, name)] == items[position_of(items, name)]);
        }
    }
}

impl DataObj {
    /// The items in the order in which their names first appeared.
    pub closed spec fn items(&self) -> Seq<DataItem> {
        self.items@
    }

    /// No two items share a name.
    pub open spec fn wf(&self) -> bool {
        forall|i: int, j: int|
            0 <= i < j < self.items().len() ==> self.items()[i].name@ != self.items()[j].name@
    }

    /// Whether the document holds an item called `name`.
    pub open spec fn contains(&self, name: Seq<char>) -> bool {
        position_of(self.items(), name) < self.items().len()
    }

    /// The value of the item called `name`.
    pub open spec fn value_of(&self, name: Seq<char>) -> DataValue
        recommends
            self.contains(name),
    {
        self.items()[position_of(self.items(), name)].value
    }

    /// Creates an empty document.
    pub fn new() -> (r: Self)
        ensures
            r.items() == Seq::<DataItem>::empty(),
            r.wf(),
    {
        DataObj { items: Vec::new() }
    }

    /// The number of items.
    pub fn len(&self) -> (r: usize)
        ensures
            r == self.items().len(),
    {
        self.items.len()
    }

    fn find(&self, name: &String) -> (r: usize)
        ensures
            r == position_of(self.items(), name@),
    {
        let mut i: usize = 0;
        proof {
            lemma_position_of(self.items@, name@);
        }
        while i < self.items.len()
            invariant
                i <= self.items.len(),
                forall|j: int| 0 <= j < i ==> self.items@[j].name@ != name@,
                i <= position_of(self.items@, name@) <= self.items@.len(),
                forall|j: int|
                    0 <= j < position_of(self.items@, name@) ==> self.items@[j].name@ != name@,
                position_of(self.items@, name@) < self.items@.len() ==> self.items@[position_of(
                    self.items@,
                    name@,
                )].name@ == name@,
            decreases self.items.len() - i,
        {
            if self.items[i].name == *name {
                return i;
            }
            i += 1;
        }
        i
    }

    /// Fetches the item called `name` as a `T`. The read yields nothing
    /// where the document has no such item or the item is of another kind
    /// than `T` is read from.
    pub fn get<T: FromDataItem>(&self, name: &str) -> (r: Option<T>)
        ensures
            r is Some <==> self.contains(name@) && self.value_of(name@).spec_typ()
                == T::spec_typ(),
            r is Some ==> r->0 == T::of_value(self.value_of(name@)),
    {
        let key = String::from_str(name);
        let i = self.find(&key);
        if i < self.items.len() {
            let value = &self.items[i].value;
            if value.typ() == T::typ() {
                Some(T::from_item_unchecked(value))
            } else {
                None
            }
        } else {
            None
        }
    }

    /// Borrows the nested object called `name`, if there is one.
    pub fn get_obj(&self, name: &str) -> (r: Option<&DataObj>)
        ensures
            r is Some <==> self.contains(name@) && self.value_of(name@) is Object,
            r is Some ==> *r->0 == self.value_of(name@)->Object_0,
    {
        let key = String::from_str(name);
        let i = self.find(&key);
        if i < self.items.len() {
            match &self.items[i].value {
                DataValue::Object(obj) => Some(obj),
                _ => None,
            }
        } else {
            None
        }
    }

    /// Borrows the array called `name`, if there is one.
    pub fn get_array(&self, name: &str) -> (r: Option<&DataArray>)
        ensures
            r is Some <==> self.contains(name@) && self.value_of(name@) is Array,
            r is Some ==> *r->0 == self.value_of(name@)->Array_0,
    {
        let key = String::from_str(name);
        let i = self.find(&key);
        if i < self.items.len() {
            match &self.items[i].value {
                DataValue::Array(array) => Some(array),
                _ => None,
            }
        } else {
            None
        }
    }
}

/// An index whose item has the name, with no such item before it, is the
/// position of the name.
pub proof fn lemma_position_found(items: Seq<DataItem>, name: Seq<char>, i: int)
    requires
        0 <= i < items.len(),
        items[i].name@ == name,
        forall|j: int| 0 <= j < i ==> items[j].name@ != name,
    ensures
        position_of(items, name) == i,
{
    lemma_position_of(items, name);
}

/// Where no item has the name, its position is the length.
pub proof fn lemma_position_absent(items: Seq<DataItem>, name: Seq<char>)
    requires
        forall|j: int| 0 <= j < items.len() ==> items[j].name@ != name,
    ensures
        position_of(items, name) == items.len(),
{
    lemma_position_of(items, name);
}

impl DataObj {
    /// Sets the item called `name` to `value`: in place where the document
    /// has such an item, at the end where it has none. Every other item
    /// stays as it is.
    pub fn set(&mut self, name: &str, value: DataValue)
        requires
            old(self).wf(),
        ensures
            final(self).wf(),
            final(self).contains(name@),
            final(self).value_of(name@) == value,
            old(self).contains(name@) ==> final(self).items() == old(self).items().update(
                position_of(old(self).items(), name@),
                DataItem {
                    name: old(self).items()[position_of(old(self).items(), name@)].name,
                    value,
                },
            ),
            !old(self).contains(name@) ==> final(self).items().len() == old(self).items().len() + 1
                && final(self).items().drop_last() == old(self).items() && final(self).items().last().name@ == name@ && final(self).items().last().value == value,
            forall|other: Seq<char>|
                other != name@ ==> (final(self).contains(other) == old(self).contains(other))
                    && (old(self).contains(other) ==> final(self).value_of(other) == old(
                    self,
                ).value_of(other)),
    {
        let key = String::from_str(name);
        let i = self.find(&key);
        proof {
            lemma_position_of(old(self).items(), name@);
        }
        if i < self.items.len() {
            self.items[i].value = value;
            assert(self.items() =~= old(self).items().update(
                i as int,
                DataItem { name: old(self).items()[i as int].name, value },
            ));
            proof {
                let pre = old(self).items();
                let post = self.items();
                assert(post.len() == pre.len());
                assert forall|k: int| 0 <= k < pre.len() implies post[k].name == pre[k].name by {}
                lemma_position_found(post, name@, i as int);
                assert forall|other: Seq<char>| other != name@ implies (self.contains(other)
                    == old(self).contains(other)) && (old(self).contains(other)
                    ==> self.value_of(other) == old(self).value_of(other)) by {
                    lemma_position_of(pre, other);
                    let p = position_of(pre, other);
                    if p < pre.len() {
                        lemma_position_found(post, other, p);
                    } else {
                        lemma_position_absent(post, other);
                    }
                }
            }
        } else {
            self.items.push(DataItem { name: key, value });
            proof {
                let pre = old(self).items();
                let post = self.items();
                assert(post =~= pre.push(post[pre.len() as int]));
                assert(post.drop_last() =~= pre);
                lemma_position_found(post, name@, pre.len() as int);
                assert forall|other: Seq<char>| other != name@ implies (self.contains(other)
                    == old(self).contains(other)) && (old(self).contains(other)
                    ==> self.value_of(other) == old(self).value_of(other)) by {
                    lemma_position_of(pre, other);
                    let p = position_of(pre, other);
                    if p < pre.len() {
                        lemma_position_found(post, other, p);
                    } else {
                        lemma_position_absent(post, other);
                    }
                }
            }
        }
    }

    /// Sets the item called `name` to `value` unless the document has such
    /// an item already, and says whether it did set it.
    pub fn set_default(&mut self, name: &str, value: DataValue) -> (set: bool)
        requires
            old(self).wf(),
        ensures
            final(self).wf(),
            set == !old(self).contains(name@),
            final(self).contains(name@),
            final(self).value_of(name@) == if set {
                value
            } else {
                old(self).value_of(name@)
            },
            !set ==> final(self).items() == old(self).items(),
            set ==> final(self).items().len() == old(self).items().len() + 1 && final(self).items().drop_last() == old(self).items() && final(self).items().last().name@
                == name@,
            forall|other: Seq<char>|
                other != name@ ==> (final(self).contains(other) == old(self).contains(other))
                    && (old(self).contains(other) ==> final(self).value_of(other) == old(
                    self,
                ).value_of(other)),
    {
        let key = String::from_str(name);
        let i = self.find(&key);
        if i < self.items.len() {
            false
        } else {
            self.set(name, value);
            true
        }
    }

    /// Removes the item called `name` and says whether there was one. Every
    /// other item stays as it is.
    pub fn remove(&mut self, name: &str) -> (removed: bool)
        requires
            old(self).wf(),
        ensures
            final(self).wf(),
            removed == old(self).contains(name@),
            !final(self).contains(name@),
            removed ==> final(self).items() == old(self).items().remove(
                position_of(old(self).items(), name@),
            ),
            !removed ==> final(self).items() == old(self).items(),
            forall|other: Seq<char>|
                other != name@ ==> (final(self).contains(other) == old(self).contains(other))
                    && (old(self).contains(other) ==> final(self).value_of(other) == old(
                    self,
                ).value_of(other)),
    {
        let key = String::from_str(name);
        let i = self.find(&key);
        proof {
            lemma_position_of(old(self).items(), name@);
        }
        if i < self.items.len() {
            self.items.remove(i);
            proof {
                let pre = old(self).items();
                let post = self.items();
                assert(post =~= pre.remove(i as int));
                assert forall|k: int| 0 <= k < post.len() implies post[k].name@ != name@ by {
                    if k < i {
                        assert(post[k] == pre[k]);
                    } else {
                        assert(post[k] == pre[k + 1]);
                    }
                }
                lemma_position_absent(post, name@);
                assert forall|other: Seq<char>| other != name@ implies (self.contains(other)
                    == old(self).contains(other)) && (old(self).contains(other)
                    ==> self.value_of(other) == old(self).value_of(other)) by {
                    lemma_position_of(pre, other);
                    let p = position_of(pre, other);
                    if p < pre.len() {
                        if p < i {
                            assert forall|j: int| 0 <= j < p implies post[j].name@ != other by {
                                assert(post[j] == pre[j]);
                            }
                            assert(post[p] == pre[p]);
                            lemma_position_found(post, other, p);
                        } else {
                            assert forall|j: int| 0 <= j < p - 1 implies post[j].name@
                                != other by {
                                if j < i {
                                    assert(post[j] == pre[j]);
                                } else {
                                    assert(post[j] == pre[j + 1]);
                                }
                            }
                            assert(post[p - 1] == pre[p]);
                            lemma_position_found(post, other, p - 1);
                        }
                    } else {
                        assert forall|j: int| 0 <= j < post.len() implies post[j].name@
                            != other by {
                            if j < i {
                                assert(post[j] == pre[j]);
                            } else {
                                assert(post[j] == pre[j + 1]);
                            }
                        }
                        lemma_position_absent(post, other);
                    }
                }
            }
            true
        } else {
            false
        }
    }

    /// Clears all values.
    pub fn clear(&mut self)
        ensures
            final(self).items() == Seq::<DataItem>::empty(),
            final(self).wf(),
    {
        self.items.clear();
    }
}

impl DataArray {
    /// The documents of the array, in their order.
    pub closed spec fn items(&self) -> Seq<DataObj> {
        self.items@
    }

    /// An empty array.
    pub fn new() -> (r: Self)
        ensures
            r.items() == Seq::<DataObj>::empty(),
    {
        DataArray { items: Vec::new() }
    }

    pub fn len(&self) -> (r: usize)
        ensures
            r == self.items().len(),
    {
        self.items.len()
    }

    /// The document at `index`; nothing beyond the end.
    pub fn get(&self, index: usize) -> (r: Option<&DataObj>)
        ensures
            r is Some <==> index < self.items().len(),
            r matches Some(obj) ==> *obj == self.items()[index as int],
    {
        if index < self.items.len() {
            Some(&self.items[index])
        } else {
            None
        }
    }

    /// Adds a document at the end.
    pub fn push(&mut self, obj: DataObj)
        ensures
            final(self).items() == old(self).items().push(obj),
    {
        self.items.push(obj);
    }
}

} // verus!

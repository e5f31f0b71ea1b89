use serde::de::value::{Error as ValueError, MapDeserializer, SeqDeserializer, U32Deserializer, UnitDeserializer};
use serde::de::{Deserialize, DeserializeSeed, Deserializer, MapAccess, Visitor};
use serde::ser::{Serialize, SerializeStruct, Serializer};
use serde_json::{Number, Value};
use std::fmt;
use std::marker::PhantomData;
use tuple_vec_map::{advance, begin, serialize, Step, TupleVecMapVisitor, Wrapper};

/// Pairs that a format writes as a dictionary.
struct AsMap<'a, K, V>(&'a [(K, V)]);

impl<'a, K: Serialize, V: Serialize> Serialize for AsMap<'a, K, V> {
    fn serialize<S: Serializer>(&self, serializer: S) -> Result<S::Ok, S::Error> {
        serializer.collect_map(serialize(self.0))
    }
}

/// The reader of this crate, driven by the dictionary of a format.
struct Reader<K, V>(TupleVecMapVisitor<K, V>);

impl<'de, K: Deserialize<'de>, V: Deserialize<'de>> Visitor<'de> for Reader<K, V> {
    type Value = Vec<(K, V)>;

    fn expecting(&self, formatter: &mut fmt::Formatter) -> fmt::Result {
        formatter.write_str(self.0.expecting())
    }

    fn visit_unit<E: serde::de::Error>(self) -> Result<Vec<(K, V)>, E> {
        self.0.visit_unit()
    }

    fn visit_map<A: MapAccess<'de>>(self, mut access: A) -> Result<Vec<(K, V)>, A::Error> {
        let mut values = begin(access.size_hint());
        loop {
            match advance(values, access.next_entry()) {
                Step::Pull(read_so_far) => values = read_so_far,
                Step::Done(read) => return read,
            }
        }
    }
}

fn read<'de, K, V, D>(deserializer: D) -> Result<Vec<(K, V)>, D::Error>
where
    K: Deserialize<'de>,
    V: Deserialize<'de>,
    D: Deserializer<'de>,
{
    deserializer.deserialize_map(Reader(TupleVecMapVisitor::new()))
}

fn read_json<'de, K: Deserialize<'de>, V: Deserialize<'de>>(text: &'de str) -> Result<Vec<(K, V)>, serde_json::Error> {
    read(&mut serde_json::Deserializer::from_str(text))
}

struct Pairs<K, V>(PhantomData<(K, V)>);

impl<'de, K: Deserialize<'de>, V: Deserialize<'de>> DeserializeSeed<'de> for Pairs<K, V> {
    type Value = Vec<(K, V)>;

    fn deserialize<D: Deserializer<'de>>(self, deserializer: D) -> Result<Vec<(K, V)>, D::Error> {
        read(deserializer)
    }
}

#[derive(Debug, PartialEq, Eq)]
struct TestData {
    score: Vec<(String, u32)>,
}

impl Serialize for TestData {
    fn serialize<S: Serializer>(&self, serializer: S) -> Result<S::Ok, S::Error> {
        let mut fields = serializer.serialize_struct("TestData", 1)?;
        fields.serialize_field("score", &AsMap(&self.score))?;
        fields.end()
    }
}

struct TestDataVisitor;

impl<'de> Visitor<'de> for TestDataVisitor {
    type Value = TestData;

    fn expecting(&self, formatter: &mut fmt::Formatter) -> fmt::Result {
        formatter.write_str("struct TestData")
    }

    fn visit_map<A: MapAccess<'de>>(self, mut access: A) -> Result<TestData, A::Error> {
        let mut score = None;
        while let Some(field) = access.next_key::<String>()? {
            if field == "score" {
                score = Some(access.next_value_seed(Pairs(PhantomData))?);
            } else {
                return Err(serde::de::Error::unknown_field(&field, &["score"]));
            }
        }
        match score {
            Some(score) => Ok(TestData { score }),
            None => Err(serde::de::Error::missing_field("score")),
        }
    }
}

impl<'de> Deserialize<'de> for TestData {
    fn deserialize<D: Deserializer<'de>>(deserializer: D) -> Result<TestData, D::Error> {
        deserializer.deserialize_struct("TestData", &["score"], TestDataVisitor)
    }
}

fn object(entries: &[(&str, Value)]) -> Value {
    let mut map = serde_json::Map::new();
    for (key, value) in entries {
        map.insert(key.to_string(), value.clone());
    }
    Value::Object(map)
}

fn number(value: u32) -> Value {
    Value::Number(Number::from(value))
}

#[test]
fn test_deserialization() {
    let data = object(&[(
        "score",
        object(&[
            ("user1", number(50)),
            ("user2", number(30)),
            ("user3", number(0)),
            ("user4", number(100)),
        ]),
    )]);

    let deserialized = TestData::deserialize(data).expect("expected successful deserialization");

    assert_eq!(
        deserialized,
        TestData {
            score: vec![
                ("user1".to_owned(), 50),
                ("user2".to_owned(), 30),
                ("user3".to_owned(), 0),
                ("user4".to_owned(), 100),
            ],
        }
    )
}

#[test]
fn test_serialization() {
    let data = TestData {
        score: vec![
            ("a_guy".to_owned(), 200),
            ("b_guy".to_owned(), 300),
            ("c_guy".to_owned(), 400),
        ],
    };

    let serialized = serde_json::to_value(data).expect("expected data to serialize successfully");

    assert_eq!(
        serialized,
        object(&[(
            "score",
            object(&[("a_guy", number(200)), ("b_guy", number(300)), ("c_guy", number(400))]),
        )])
    );
}

struct Data<'a> {
    inner: &'a [(&'a str, &'a str)],
}

impl<'a> Serialize for Data<'a> {
    fn serialize<S: Serializer>(&self, serializer: S) -> Result<S::Ok, S::Error> {
        let mut fields = serializer.serialize_struct("Data", 1)?;
        fields.serialize_field("inner", &AsMap(self.inner))?;
        fields.end()
    }
}

#[test]
fn serializing_from_slice_works() {
    let data = Data { inner: &[("answer", "fourty-two")] };

    let ser = serde_json::to_value(data).unwrap();
    assert_eq!(
        ser,
        object(&[("inner", object(&[("answer", Value::String("fourty-two".to_owned()))]))])
    );
}

#[test]
fn wrapped_slice_is_written_with_its_keys_in_order() {
    let data = [("hello", "world"), ("answer", "42")];
    let wrapper = Wrapper::from_slice(&data);
    let out = serde_json::to_string(&AsMap(wrapper.into_inner())).unwrap();
    assert_eq!(out, r#"{"hello":"world","answer":"42"}"#);
}

#[test]
fn wrapped_entries_are_written_with_their_keys_in_order() {
    let data = [("hello", "world"), ("answer", "42")];
    let wrapper = Wrapper::from_slice(&data);
    let mut out = Vec::new();
    serde_json::Serializer::new(&mut out).collect_map(wrapper.serialize()).unwrap();
    assert_eq!(out, br#"{"hello":"world","answer":"42"}"#);
}

#[test]
fn wrapped_vec_is_read_from_a_dictionary() {
    let data = r#"{"hello": "world", "answer": "42"}"#;
    let out: Wrapper<Vec<(String, String)>> = Wrapper::from_vec(read_json(data).unwrap());
    assert_eq!(
        out.into_inner(),
        vec![("hello".to_owned(), "world".to_owned()), ("answer".to_owned(), "42".to_owned())],
    );
}

#[test]
fn duplicate_keys_are_written_as_two_entries() {
    let data = [("a", 1), ("a", 2)];
    let out = serde_json::to_string(&AsMap(&data)).unwrap();
    assert_eq!(out, r#"{"a":1,"a":2}"#);
}

#[test]
fn duplicate_keys_are_read_as_two_pairs() {
    let read: Vec<(String, u32)> = read_json(r#"{"a":1,"a":2}"#).unwrap();
    assert_eq!(read, vec![("a".to_owned(), 1), ("a".to_owned(), 2)]);
}

#[test]
fn empty_sequence_is_written_as_an_empty_dictionary() {
    let data: [(String, u32); 0] = [];
    assert_eq!(serde_json::to_string(&AsMap(&data)).unwrap(), "{}");
}

#[test]
fn empty_dictionary_is_read_as_no_pairs() {
    let read: Vec<(String, u32)> = read_json("{}").unwrap();
    assert!(read.is_empty());
}

#[test]
fn unit_is_read_as_no_pairs() {
    let read: Result<Vec<(String, u32)>, ValueError> = read(UnitDeserializer::new());
    assert_eq!(read, Ok(Vec::new()));
}

#[test]
fn dictionary_is_read_in_the_order_of_its_text() {
    let text = r#"{"user1":50,"user2":30,"user3":0,"user4":100}"#;
    let read: Vec<(String, u32)> = read_json(text).unwrap();
    assert_eq!(
        read,
        vec![
            ("user1".to_owned(), 50),
            ("user2".to_owned(), 30),
            ("user3".to_owned(), 0),
            ("user4".to_owned(), 100),
        ]
    );
    assert_eq!(serde_json::to_string(&AsMap(&read)).unwrap(), text);
}

#[test]
fn keys_out_of_order_stay_out_of_order() {
    let text = r#"{"zeta":1,"alpha":2,"mid":3}"#;
    let read: Vec<(String, u32)> = read_json(text).unwrap();
    assert_eq!(read, vec![("zeta".to_owned(), 1), ("alpha".to_owned(), 2), ("mid".to_owned(), 3)]);
    assert_eq!(serde_json::to_string(&AsMap(&read)).unwrap(), text);
}

#[test]
fn what_is_written_is_read_back() {
    let data: Vec<(String, Vec<i64>)> = vec![
        ("b".to_owned(), vec![1, -2]),
        ("a".to_owned(), vec![]),
        ("c".to_owned(), vec![3]),
    ];
    let text = serde_json::to_string(&AsMap(&data)).unwrap();
    let read: Vec<(String, Vec<i64>)> = read_json(&text).unwrap();
    assert_eq!(read, data);
}

#[test]
fn dictionary_of_another_source_is_read_in_its_order() {
    let source = vec![(3u32, 'c'), (1u32, 'a'), (2u32, 'b')];
    let read: Result<Vec<(u32, char)>, ValueError> = read(MapDeserializer::new(source.clone().into_iter()));
    assert_eq!(read, Ok(source));
}

#[test]
fn long_dictionary_is_read_whole() {
    let source: Vec<(u32, u32)> = (0..10_000).map(|i| (i, i + 1)).collect();
    let read: Result<Vec<(u32, u32)>, ValueError> = read(MapDeserializer::new(source.clone().into_iter()));
    assert_eq!(read, Ok(source));
}

#[test]
fn number_is_not_read() {
    let from_text: Result<Vec<(String, u32)>, serde_json::Error> = read_json("5");
    let failure = from_text.unwrap_err();
    assert!(failure.to_string().contains("expected a map"), "{}", failure);

    let from_value: Result<Vec<(String, u32)>, ValueError> = read(U32Deserializer::new(5));
    let failure = from_value.unwrap_err();
    assert_eq!(failure.to_string(), "invalid type: integer `5`, expected a map");
}

#[test]
fn list_is_not_read() {
    let from_text: Result<Vec<(String, u32)>, serde_json::Error> = read_json("[1, 2]");
    let failure = from_text.unwrap_err();
    assert!(failure.to_string().contains("expected a map"), "{}", failure);

    let from_value: Result<Vec<(String, u32)>, ValueError> = read(SeqDeserializer::new(vec![1u32, 2u32].into_iter()));
    let failure = from_value.unwrap_err();
    assert_eq!(failure.to_string(), "invalid type: sequence, expected a map");
}

#[test]
fn failure_of_a_value_is_the_failure_of_the_read() {
    let read: Result<Vec<(String, u32)>, serde_json::Error> = read_json(r#"{"a":1,"b":"two","c":3}"#);
    let failure = read.unwrap_err();
    let alone = serde_json::from_str::<u32>(r#""two""#).unwrap_err();
    assert!(failure.to_string().starts_with("invalid type: string \"two\", expected u32"), "{}", failure);
    assert!(alone.to_string().starts_with("invalid type: string \"two\", expected u32"), "{}", alone);
}

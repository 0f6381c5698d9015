use ephemera::api::types::RawApiEphemeraMessage;
use ephemera::block::types::message::UnsignedEphemeraMessage;
use ephemera::broadcast_protocol::signer::SignatureRequest;
use ephemera::encoding::{push_json_bytes, push_json_string};
use serde::ser::{Serialize, SerializeStruct, Serializer};

struct ApiFields<'a> {
    timestamp: u64,
    label: &'a str,
    data: &'a [u8],
}

impl Serialize for ApiFields<'_> {
    fn serialize<S: Serializer>(&self, s: S) -> Result<S::Ok, S::Error> {
        let mut st = s.serialize_struct("RawApiEphemeraMessage", 3)?;
        st.serialize_field("timestamp", &self.timestamp)?;
        st.serialize_field("label", self.label)?;
        st.serialize_field("data", self.data)?;
        st.end()
    }
}

struct UnsignedFields<'a> {
    label: &'a str,
    data: &'a [u8],
}

impl Serialize for UnsignedFields<'_> {
    fn serialize<S: Serializer>(&self, s: S) -> Result<S::Ok, S::Error> {
        let mut st = s.serialize_struct("UnsignedEphemeraMessage", 2)?;
        st.serialize_field("label", self.label)?;
        st.serialize_field("data", self.data)?;
        st.end()
    }
}

const LABELS: [&str; 5] = ["", "plain", "quote \" back \\ slash", "lines\n\r\t\u{8}\u{c}", "ctl \u{1}\u{1f}\u{7f} é ☃"];

#[test]
fn strings_and_bytes_are_written_as_serde_json_writes_them() {
    for label in LABELS {
        let mut out = Vec::new();
        push_json_string(&mut out, label.as_bytes());
        assert_eq!(out, serde_json::to_vec(label).unwrap(), "label {label:?}");
    }
    for data in [vec![], vec![0u8], vec![1, 10, 100, 255]] {
        let mut out = Vec::new();
        push_json_bytes(&mut out, &data);
        assert_eq!(out, serde_json::to_vec(&data).unwrap());
    }
}

#[test]
fn messages_are_encoded_as_serde_json_encodes_their_fields() {
    for (i, label) in LABELS.iter().enumerate() {
        let data = vec![i as u8, 200, 7];
        let raw = RawApiEphemeraMessage { timestamp: 1_700_000_000 + i as u64, label: label.to_string(), data: data.clone() };
        let expected = serde_json::to_vec(&ApiFields { timestamp: raw.timestamp, label, data: &data }).unwrap();
        assert_eq!(raw.encode(), expected);
        let unsigned = UnsignedEphemeraMessage::new(label.to_string(), data.clone());
        let expected = serde_json::to_vec(&UnsignedFields { label, data: &data }).unwrap();
        assert_eq!(unsigned.encode(), expected);
    }
}

struct RequestFields<'a> {
    payload: &'a [u8],
    signature: &'a str,
}

impl Serialize for RequestFields<'_> {
    fn serialize<S: Serializer>(&self, s: S) -> Result<S::Ok, S::Error> {
        let mut st = s.serialize_struct("SignatureRequest", 2)?;
        st.serialize_field("payload", self.payload)?;
        st.serialize_field("signature", self.signature)?;
        st.end()
    }
}

#[test]
fn signature_requests_are_encoded_as_serde_json_encodes_them() {
    for (i, signature) in LABELS.iter().chain(["00ff7a"].iter()).enumerate() {
        let payload = vec![i as u8, 0, 255];
        let request = SignatureRequest { payload: payload.clone(), signature: signature.to_string() };
        let expected = serde_json::to_vec(&RequestFields { payload: &payload, signature }).unwrap();
        assert_eq!(request.encode(), expected);
    }
}

//! What aria2 reports: its version, a download's status, the overall statistics.

use vstd::prelude::*;
use vstd::string::*;

use crate::decode::{pop_list, pop_text, read_record, DecodeError, Field, FieldData};
use crate::json::JsonValue;

verus! {

/// The version of aria2 and what it was built with.
#[derive(Clone, Debug)]
pub struct Version {
    pub version: String,
    pub enabled_features: Vec<String>,
}

/// The status of a download.
#[derive(Clone, Debug)]
pub struct Status {
    pub gid: String,
    /// active, waiting, paused, error, complete, removed
    pub status: String,
    /// Total length of the download in bytes.
    pub total_length: String,
    /// Completed length of the download in bytes.
    pub completed_length: String,
    /// Uploaded length of the download in bytes.
    pub upload_length: String,
    /// Hexadecimal representation of the download progress.
    pub bitfield: String,
    /// Download speed of this download measured in bytes/sec.
    pub download_speed: String,
    /// Upload speed of this download measured in bytes/sec.
    pub upload_speed: String,
    /// InfoHash. BitTorrent only.
    pub info_hash: String,
}

/// The overall statistics.
#[derive(Clone, Debug)]
pub struct GlobalStat {
    /// Overall download speed (byte/sec).
    pub download_speed: String,
    /// Overall upload speed(byte/sec).
    pub upload_speed: String,
    /// The number of active downloads.
    pub num_active: String,
    /// The number of waiting downloads.
    pub num_waiting: String,
    /// The number of stopped downloads in the current session.
    /// This value is capped by the --max-download-result option.
    pub num_stopped: String,
    /// The number of stopped downloads in the current session
    /// and not capped by the --max-download-result option.
    pub num_stopped_total: String,
}

/// The fields of a version in JSON.
pub open spec fn version_fields() -> Seq<Field> {
    seq![
        Field { name: "version", list: false },
        Field { name: "enabledFeatures", list: true },
    ]
}

/// The fields of a status in JSON.
pub open spec fn status_fields() -> Seq<Field> {
    seq![
        Field { name: "gid", list: false },
        Field { name: "status", list: false },
        Field { name: "totalLength", list: false },
        Field { name: "completedLength", list: false },
        Field { name: "uploadLength", list: false },
        Field { name: "bitfield", list: false },
        Field { name: "downloadSpeed", list: false },
        Field { name: "uploadSpeed", list: false },
        Field { name: "infoHash", list: false },
    ]
}

/// The fields of the overall statistics in JSON.
pub open spec fn global_stat_fields() -> Seq<Field> {
    seq![
        Field { name: "downloadSpeed", list: false },
        Field { name: "uploadSpeed", list: false },
        Field { name: "numActive", list: false },
        Field { name: "numWaiting", list: false },
        Field { name: "numStopped", list: false },
        Field { name: "numStoppedTotal", list: false },
    ]
}

/// The text of a version, over its features as `{:?}` shows them.
pub open spec fn version_text(version: Seq<char>, features: Seq<char>) -> Seq<char> {
    "Version:\n  version: "@ + version + "\n  enabled features: "@ + features
}

/// The text of a version, from its features as `{:?}` shows them.
pub fn show_version(version: &str, features: &str) -> (r: String)
    ensures
        r@ == version_text(version@, features@),
{
    let mut text = "Version:\n  version: ".to_string();
    text.append(version);
    text.append("\n  enabled features: ");
    text.append(features);
    text
}

impl Version {
    /// The fields, in the order of `version_fields`.
    pub open spec fn data(self) -> Seq<FieldData> {
        seq![
            FieldData::Text(self.version@),
            FieldData::TextList(crate::text::texts(self.enabled_features@)),
        ]
    }

    /// The text of a version.
    pub open spec fn text(self) -> Seq<char> {
        version_text(
            self.version@,
            crate::text::list_debug(crate::text::texts(self.enabled_features@)),
        )
    }

    /// Reads a version out of a JSON value: an object with the fields, or an array of them.
    pub fn from_json(v: &JsonValue) -> (r: Result<Version, DecodeError>)
        ensures
            match crate::decode::record(v@, version_fields()) {
                Ok(d) => r is Ok && r->Ok_0.data() == d,
                Err(e) => r == Err::<Version, DecodeError>(e),
            },
    {
        let fields: Vec<Field> = vec![
            Field { name: "version", list: false },
            Field { name: "enabledFeatures", list: true },
        ];
        assert(fields@ =~= version_fields());
        match read_record(v, &fields) {
            Ok(mut values) => {
                proof {
                    crate::decode::record_shape(v@, fields@);
                }
                let ghost d = crate::decode::data(values@);
                assert(d.len() == 2 && !(d[0] is TextList) && d[1] is TextList);
                let enabled_features = pop_list(&mut values);
                let version = pop_text(&mut values);
                let r = Version { version, enabled_features };
                assert(r.data() =~= d);
                Ok(r)
            },
            Err(e) => Err(e),
        }
    }

    /// The version as a text for people.
    pub fn to_string(&self) -> (r: String)
        ensures
            r@ == self.text(),
    {
        show_version(
            self.version.as_str(),
            crate::text::debug_list(&self.enabled_features).as_str(),
        )
    }
}

impl Status {
    /// The fields, in the order of `status_fields`.
    pub open spec fn data(self) -> Seq<FieldData> {
        seq![
            FieldData::Text(self.gid@),
            FieldData::Text(self.status@),
            FieldData::Text(self.total_length@),
            FieldData::Text(self.completed_length@),
            FieldData::Text(self.upload_length@),
            FieldData::Text(self.bitfield@),
            FieldData::Text(self.download_speed@),
            FieldData::Text(self.upload_speed@),
            FieldData::Text(self.info_hash@),
        ]
    }

    /// The text of a status.
    pub open spec fn text(self) -> Seq<char> {
        "Status:\n  gid: "@ + self.gid@ + "\n  status: "@ + self.status@ + "\n  total length: "@
            + self.total_length@ + "bytes\n  completed length: "@ + self.completed_length@
            + "bytes\n  upload length: "@ + self.upload_length@ + "bytes\n  bitfield: "@
            + self.bitfield@ + "\n  download speed: "@ + self.download_speed@
            + "bytes/sec\n  upload speed: "@ + self.upload_speed@ + "bytes/sec\n  info_hash: "@
            + self.info_hash@
    }

    /// Reads a status out of a JSON value: an object with the fields, or an array of them.
    pub fn from_json(v: &JsonValue) -> (r: Result<Status, DecodeError>)
        ensures
            match crate::decode::record(v@, status_fields()) {
                Ok(d) => r is Ok && r->Ok_0.data() == d,
                Err(e) => r == Err::<Status, DecodeError>(e),
            },
    {
        let fields: Vec<Field> = vec![
            Field { name: "gid", list: false },
            Field { name: "status", list: false },
            Field { name: "totalLength", list: false },
            Field { name: "completedLength", list: false },
            Field { name: "uploadLength", list: false },
            Field { name: "bitfield", list: false },
            Field { name: "downloadSpeed", list: false },
            Field { name: "uploadSpeed", list: false },
            Field { name: "infoHash", list: false },
        ];
        assert(fields@ =~= status_fields());
        match read_record(v, &fields) {
            Ok(mut values) => {
                proof {
                    crate::decode::record_shape(v@, fields@);
                }
                let ghost d = crate::decode::data(values@);
                assert(d.len() == 9 && forall|i: int| 0 <= i < 9 ==> !(#[trigger] d[i] is TextList));
                let info_hash = pop_text(&mut values);
                let upload_speed = pop_text(&mut values);
                let download_speed = pop_text(&mut values);
                let bitfield = pop_text(&mut values);
                let upload_length = pop_text(&mut values);
                let completed_length = pop_text(&mut values);
                let total_length = pop_text(&mut values);
                let status = pop_text(&mut values);
                let gid = pop_text(&mut values);
                let r = Status {
                    gid,
                    status,
                    total_length,
                    completed_length,
                    upload_length,
                    bitfield,
                    download_speed,
                    upload_speed,
                    info_hash,
                };
                assert(r.data() =~= d);
                Ok(r)
            },
            Err(e) => Err(e),
        }
    }

    /// The status as a text for people.
    pub fn to_string(&self) -> (r: String)
        ensures
            r@ == self.text(),
    {
        let mut text = "Status:\n  gid: ".to_string();
        text.append(self.gid.as_str());
        text.append("\n  status: ");
        text.append(self.status.as_str());
        text.append("\n  total length: ");
        text.append(self.total_length.as_str());
        text.append("bytes\n  completed length: ");
        text.append(self.completed_length.as_str());
        text.append("bytes\n  upload length: ");
        text.append(self.upload_length.as_str());
        text.append("bytes\n  bitfield: ");
        text.append(self.bitfield.as_str());
        text.append("\n  download speed: ");
        text.append(self.download_speed.as_str());
        text.append("bytes/sec\n  upload speed: ");
        text.append(self.upload_speed.as_str());
        text.append("bytes/sec\n  info_hash: ");
        text.append(self.info_hash.as_str());
        text
    }
}

impl GlobalStat {
    /// The fields, in the order of `global_stat_fields`.
    pub open spec fn data(self) -> Seq<FieldData> {
        seq![
            FieldData::Text(self.download_speed@),
            FieldData::Text(self.upload_speed@),
            FieldData::Text(self.num_active@),
            FieldData::Text(self.num_waiting@),
            FieldData::Text(self.num_stopped@),
            FieldData::Text(self.num_stopped_total@),
        ]
    }

    /// The text of the overall statistics.
    pub open spec fn text(self) -> Seq<char> {
        "Global Stat:\n  download speed: "@ + self.download_speed@
            + "bytes/sec\n  upload speed: "@ + self.upload_speed@
            + "/bytes/sec\n  num active: "@ + self.num_active@ + "\n  num waiting: "@
            + self.num_waiting@ + "\n  num stopped: "@ + self.num_stopped@
            + "\n  num stopped total: "@ + self.num_stopped_total@ + "\n"@
    }

    /// Reads the statistics out of a JSON value: an object with the fields, or an array of them.
    pub fn from_json(v: &JsonValue) -> (r: Result<GlobalStat, DecodeError>)
        ensures
            match crate::decode::record(v@, global_stat_fields()) {
                Ok(d) => r is Ok && r->Ok_0.data() == d,
                Err(e) => r == Err::<GlobalStat, DecodeError>(e),
            },
    {
        let fields: Vec<Field> = vec![
            Field { name: "downloadSpeed", list: false },
            Field { name: "uploadSpeed", list: false },
            Field { name: "numActive", list: false },
            Field { name: "numWaiting", list: false },
            Field { name: "numStopped", list: false },
            Field { name: "numStoppedTotal", list: false },
        ];
        assert(fields@ =~= global_stat_fields());
        match read_record(v, &fields) {
            Ok(mut values) => {
                proof {
                    crate::decode::record_shape(v@, fields@);
                }
                let ghost d = crate::decode::data(values@);
                assert(d.len() == 6 && forall|i: int| 0 <= i < 6 ==> !(#[trigger] d[i] is TextList));
                let num_stopped_total = pop_text(&mut values);
                let num_stopped = pop_text(&mut values);
                let num_waiting = pop_text(&mut values);
                let num_active = pop_text(&mut values);
                let upload_speed = pop_text(&mut values);
                let download_speed = pop_text(&mut values);
                let r = GlobalStat {
                    download_speed,
                    upload_speed,
                    num_active,
                    num_waiting,
                    num_stopped,
                    num_stopped_total,
                };
                assert(r.data() =~= d);
                Ok(r)
            },
            Err(e) => Err(e),
        }
    }

    /// The statistics as a text for people.
    pub fn to_string(&self) -> (r: String)
        ensures
            r@ == self.text(),
    {
        let mut text = "Global Stat:\n  download speed: ".to_string();
        text.append(self.download_speed.as_str());
        text.append("bytes/sec\n  upload speed: ");
        text.append(self.upload_speed.as_str());
        text.append("/bytes/sec\n  num active: ");
        text.append(self.num_active.as_str());
        text.append("\n  num waiting: ");
        text.append(self.num_waiting.as_str());
        text.append("\n  num stopped: ");
        text.append(self.num_stopped.as_str());
        text.append("\n  num stopped total: ");
        text.append(self.num_stopped_total.as_str());
        text.append("\n");
        text
    }
}

} // verus!

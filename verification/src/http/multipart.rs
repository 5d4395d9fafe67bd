//! Multipart bodies: files to upload, an optional JSON payload and extra text
//! fields, laid out as the named parts of a form.

use crate::text::{decimal, decimal_u64};
use vstd::prelude::*;
use vstd::string::StringExecFns;

verus! {

/// A file to upload together with a request.
#[derive(Clone, Debug)]
pub struct CreateAttachment {
    /// The name under which the file is stored.
    pub filename: String,
    /// A description of the file, for those who cannot see it.
    pub description: Option<String>,
    /// The bytes of the file.
    pub data: Vec<u8>,
}

impl CreateAttachment {
    /// An attachment of the given bytes under the given name, without a
    /// description.
    pub fn bytes(data: Vec<u8>, filename: String) -> (a: Self)
        ensures
            a == (CreateAttachment { filename, description: None, data }),
    {
        CreateAttachment { filename, description: None, data }
    }

    /// Sets the description of the file.
    pub fn description(self, description: String) -> (a: Self)
        ensures
            a == (CreateAttachment { description: Some(description), ..self }),
    {
        let mut a = self;
        a.description = Some(description);
        a
    }
}

/// What a multipart request uploads.
#[derive(Clone, Debug)]
pub enum MultipartUpload {
    /// One file, sent as the part `file`.
    File(CreateAttachment),
    /// Any number of files, sent as the parts `files[0]`, `files[1]` and so
    /// on.
    Attachments(Vec<CreateAttachment>),
}

/// A multipart body.
#[derive(Clone, Debug)]
pub struct Multipart {
    pub upload: MultipartUpload,
    /// The JSON payload that goes with the files, sent as the part
    /// `payload_json`.
    pub payload_json: Option<String>,
    /// Further text fields, each sent as a part under its name.
    pub fields: Vec<(String, String)>,
}

/// What one part of a form carries.
#[derive(Clone, Debug)]
pub enum PartBody {
    /// A file: its name and its bytes.
    File { filename: String, data: Vec<u8> },
    /// Plain text.
    Text(String),
    /// JSON text, to be marked as `application/json`.
    Json(String),
}

/// One named part of a form.
#[derive(Clone, Debug)]
pub struct Part {
    pub name: String,
    pub body: PartBody,
}

/// The name of the part that carries the `i`-th of several files.
pub open spec fn file_part_name(i: nat) -> Seq<char> {
    "files["@ + decimal(i) + "]"@
}

/// The part that carries the `i`-th of several files.
pub open spec fn is_file_part(part: Part, i: nat, file: CreateAttachment) -> bool {
    &&& part.name@ == file_part_name(i)
    &&& part.body == (PartBody::File { filename: file.filename, data: file.data })
}

impl Multipart {
    /// How many parts the form has: one per file, one per field, and one for
    /// the payload if there is one.
    pub open spec fn part_count(self) -> nat {
        (match self.upload {
            MultipartUpload::File(_) => 1nat,
            MultipartUpload::Attachments(files) => files@.len(),
        }) + self.fields@.len() + (if self.payload_json is Some {
            1nat
        } else {
            0nat
        })
    }

    /// How many parts carry files.
    pub open spec fn file_count(self) -> nat {
        match self.upload {
            MultipartUpload::File(_) => 1nat,
            MultipartUpload::Attachments(files) => files@.len(),
        }
    }

    /// Whether `parts` is the form of this body: first the files, in order,
    /// a single file as `file` and several as `files[i]`; then the fields, in
    /// order; last the payload, if there is one, as `payload_json`.
    pub open spec fn laid_out_as(self, parts: Seq<Part>) -> bool {
        &&& parts.len() == self.part_count()
        &&& match self.upload {
            MultipartUpload::File(file) => parts[0].name@ == "file"@
                && parts[0].body == (PartBody::File {
                filename: file.filename,
                data: file.data,
            }),
            MultipartUpload::Attachments(files) => forall|i: int|
                0 <= i < files@.len() ==> is_file_part(#[trigger] parts[i], i as nat, files@[i]),
        }
        &&& forall|j: int|
            0 <= j < self.fields@.len()
                ==> (#[trigger] parts[self.file_count() + j]).name == self.fields@[j].0
                && parts[self.file_count() + j].body == PartBody::Text(self.fields@[j].1)
        &&& match self.payload_json {
            Some(json) => parts[self.part_count() - 1].name@ == "payload_json"@
                && parts[self.part_count()
                - 1].body == PartBody::Json(json),
            None => true,
        }
    }

    /// Lays the body out as the parts of a form.
    pub fn into_parts(self) -> (parts: Vec<Part>)
        ensures
            self.laid_out_as(parts@),
    {
        let ghost me = self;
        let ghost files_count = self.file_count();
        let Multipart { upload, payload_json, fields } = self;
        let mut parts: Vec<Part> = Vec::new();
        match upload {
            MultipartUpload::File(file) => {
                let CreateAttachment { filename, description: _, data } = file;
                parts.push(Part { name: String::from_str("file"), body: PartBody::File { filename, data } });
            },
            MultipartUpload::Attachments(files) => {
                let ghost all = files@;
                let mut rest = files;
                let mut reversed: Vec<CreateAttachment> = Vec::new();
                while rest.len() > 0
                    invariant
                        rest@.len() + reversed@.len() == all.len(),
                        forall|i: int| 0 <= i < rest@.len() ==> rest@[i] == all[i],
                        forall|i: int|
                            0 <= i < reversed@.len() ==> reversed@[i] == all[all.len() - 1 - i],
                    decreases rest@.len(),
                {
                    let file = rest.pop().unwrap();
                    reversed.push(file);
                }
                let total: usize = reversed.len();
                assert(all.len() == total);
                let mut index: u64 = 0;
                while reversed.len() > 0
                    invariant
                        all.len() <= usize::MAX,
                        index == parts@.len(),
                        parts@.len() + reversed@.len() == all.len(),
                        forall|i: int|
                            0 <= i < reversed@.len() ==> reversed@[i] == all[all.len() - 1 - i],
                        forall|i: int| 0 <= i < parts@.len()
                            ==> is_file_part(#[trigger] parts@[i], i as nat, all[i]),
                    decreases reversed@.len(),
                {
                    let file = reversed.pop().unwrap();
                    let CreateAttachment { filename, description: _, data } = file;
                    let mut name = String::from_str("files[");
                    name.append(decimal_u64(index).as_str());
                    name.append("]");
                    parts.push(Part { name, body: PartBody::File { filename, data } });
                    index += 1;
                }
            },
        }
        let ghost files_done = parts@;
        let ghost all_fields = fields@;
        assert(files_done.len() == files_count);
        assert(match me.upload {
            MultipartUpload::File(file) => files_done[0].name@ == "file"@
                && files_done[0].body == (PartBody::File {
                filename: file.filename,
                data: file.data,
            }),
            MultipartUpload::Attachments(files) => forall|i: int|
                0 <= i < files@.len()
                    ==> is_file_part(#[trigger] files_done[i], i as nat, files@[i]),
        });
        let mut rest = fields;
        let mut reversed: Vec<(String, String)> = Vec::new();
        while rest.len() > 0
            invariant
                rest@.len() + reversed@.len() == all_fields.len(),
                forall|i: int| 0 <= i < rest@.len() ==> rest@[i] == all_fields[i],
                forall|i: int|
                    0 <= i < reversed@.len()
                        ==> reversed@[i] == all_fields[all_fields.len() - 1 - i],
            decreases rest@.len(),
        {
            let field = rest.pop().unwrap();
            reversed.push(field);
        }
        while reversed.len() > 0
            invariant
                parts@.len() + reversed@.len() == files_done.len() + all_fields.len(),
                parts@.len() >= files_done.len(),
                forall|i: int|
                    0 <= i < reversed@.len()
                        ==> reversed@[i] == all_fields[all_fields.len() - 1 - i],
                forall|i: int| 0 <= i < files_done.len() ==> parts@[i] == files_done[i],
                forall|j: int|
                    0 <= j < parts@.len() - files_done.len()
                        ==> (#[trigger] parts@[files_done.len() + j]).name
                        == all_fields[j].0 && parts@[files_done.len() + j].body == PartBody::Text(
                        all_fields[j].1,
                    ),
            decreases reversed@.len(),
        {
            let (name, value) = reversed.pop().unwrap();
            parts.push(Part { name, body: PartBody::Text(value) });
        }
        let ghost fields_done = parts@;
        assert(fields_done.len() == files_count + all_fields.len());
        if let Some(json) = payload_json {
            parts.push(Part { name: String::from_str("payload_json"), body: PartBody::Json(json) });
        }
        proof {
            assert forall|i: int| 0 <= i < fields_done.len() implies parts@[i]
                == fields_done[i] by {}
            match me.upload {
                MultipartUpload::File(file) => {
                    assert(parts@[0] == files_done[0]);
                },
                MultipartUpload::Attachments(files) => {
                    assert forall|i: int| 0 <= i < files@.len() implies is_file_part(
                        #[trigger] parts@[i],
                        i as nat,
                        files@[i],
                    ) by {
                        assert(parts@[i] == files_done[i]);
                    }
                },
            }
            assert forall|j: int| 0 <= j < me.fields@.len() implies (#[trigger] parts@[me.file_count() + j]).name
                == me.fields@[j].0 && parts@[me.file_count() + j].body == PartBody::Text(
                me.fields@[j].1,
            ) by {
                assert(parts@[files_done.len() + j] == fields_done[files_done.len() + j]);
            }
        }
        parts
    }
}

} // verus!

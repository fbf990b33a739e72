//! The fields of a submitted form.

use crate::encoding::{encodable_len, is_encodable_len};
use crate::text::str_eq;
use vstd::prelude::*;

verus! {

/// What a form field is for, which its name alone decides.
#[derive(Clone, Copy, Debug, PartialEq, Eq, Structural)]
pub enum FieldRole {
    /// Names the task the message belongs to.
    TaskId,
    /// Holds the text of the message.
    Text,
    /// Holds an uploaded file.
    Attachment,
    /// Any other field; it is passed over.
    Unknown,
}

/// The role of the field called `name`.
pub open spec fn role_of(name: Seq<char>) -> FieldRole {
    if name == "task_id"@ {
        FieldRole::TaskId
    } else if name == "message"@ {
        FieldRole::Text
    } else if name == "receipt"@ {
        FieldRole::Attachment
    } else {
        FieldRole::Unknown
    }
}

/// Tells how the field called `name` is to be read: as the task identifier,
/// as the message text, as an upload, or not at all.
pub fn field_role(name: &str) -> (role: FieldRole)
    ensures
        role == role_of(name@),
{
    if str_eq(name, "task_id") {
        FieldRole::TaskId
    } else if str_eq(name, "message") {
        FieldRole::Text
    } else if str_eq(name, "receipt") {
        FieldRole::Attachment
    } else {
        FieldRole::Unknown
    }
}

/// A file as it was uploaded: the bytes, and the name and media type that
/// the sender gave, if any. The bytes are never so many that the length of
/// their base64 text would overflow.
#[derive(Debug, PartialEq, Eq)]
pub struct Upload {
    file_name: Option<String>,
    mime_type: Option<String>,
    data: Vec<u8>,
}

/// Mathematical value of an [`Upload`].
pub struct UploadView {
    pub file_name: Option<Seq<char>>,
    pub mime_type: Option<Seq<char>>,
    pub data: Seq<u8>,
}

impl View for Upload {
    type V = UploadView;

    closed spec fn view(&self) -> UploadView {
        UploadView {
            file_name: self.file_name.deep_view(),
            mime_type: self.mime_type.deep_view(),
            data: self.data@,
        }
    }
}

impl Upload {
    /// The base64 text of the bytes can be addressed.
    #[verifier::type_invariant]
    spec fn fits(&self) -> bool {
        encodable_len(self.data@.len())
    }

    /// An upload of `data`, or nothing when `data` is so long that its
    /// base64 text could not be addressed.
    pub fn new(file_name: Option<String>, mime_type: Option<String>, data: Vec<u8>) -> (made:
        Option<Upload>)
        ensures
            made is Some <==> encodable_len(data@.len()),
            made matches Some(upload) ==> upload@ == (UploadView {
                file_name: file_name.deep_view(),
                mime_type: mime_type.deep_view(),
                data: data@,
            }),
    {
        if is_encodable_len(data.len()) {
            Some(Upload { file_name, mime_type, data })
        } else {
            None
        }
    }

    /// The name that the sender gave to the file, if any.
    pub fn file_name(&self) -> (name: &Option<String>)
        ensures
            name.deep_view() == self@.file_name,
    {
        &self.file_name
    }

    /// The media type that the sender gave to the file, if any.
    pub fn mime_type(&self) -> (mime_type: &Option<String>)
        ensures
            mime_type.deep_view() == self@.mime_type,
    {
        &self.mime_type
    }

    /// The bytes of the file.
    pub fn data(&self) -> (data: &Vec<u8>)
        ensures
            data@ == self@.data,
            encodable_len(data@.len()),
    {
        proof {
            use_type_invariant(self);
        }
        &self.data
    }
}

/// One field of a submitted form, sorted by its role.
#[derive(Debug, PartialEq, Eq)]
pub enum FormField {
    /// The value of the field that names the task.
    TaskId(String),
    /// The value of the field that holds the message text.
    Text(String),
    /// A file sent in the upload field.
    Attachment(Upload),
    /// A field of another name, which is given here.
    Unknown(String),
}

/// Mathematical value of a [`FormField`].
pub enum FormFieldView {
    TaskId(Seq<char>),
    Text(Seq<char>),
    Attachment(UploadView),
    Unknown(Seq<char>),
}

impl View for FormField {
    type V = FormFieldView;

    open spec fn view(&self) -> FormFieldView {
        match self {
            FormField::TaskId(id) => FormFieldView::TaskId(id@),
            FormField::Text(text) => FormFieldView::Text(text@),
            FormField::Attachment(upload) => FormFieldView::Attachment(upload@),
            FormField::Unknown(name) => FormFieldView::Unknown(name@),
        }
    }
}

impl DeepView for FormField {
    type V = FormFieldView;

    open spec fn deep_view(&self) -> FormFieldView {
        self@
    }
}

} // verus!

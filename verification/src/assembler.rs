//! Builds a user message from the fields of a submitted form.
//!
//! The task identifier and the text are each taken from the last field that
//! gives one. Every upload with content becomes a file part that carries the
//! content inline. A text that is not empty leads the parts; the files follow
//! in the order of their arrival.

use crate::encoding::{base64_standard, encode_base64};
use crate::error::ValidationError;
use crate::form::{FormField, FormFieldView, UploadView};
use crate::ident::{fresh_id, is_hyphenated_uuid};
use crate::message::{FilePartView, FileSourceView, Message, MessageView, Part, PartView, Role};
use crate::text::clone_opt;
use vstd::prelude::*;

verus! {

/// The task identifier that the form names: the value of its last
/// task-identifier field, or the empty string when it has none.
pub open spec fn submitted_task_id(fields: Seq<FormFieldView>) -> Seq<char>
    decreases fields.len(),
{
    if fields.len() == 0 {
        Seq::empty()
    } else {
        match fields.last() {
            FormFieldView::TaskId(id) => id,
            _ => submitted_task_id(fields.drop_last()),
        }
    }
}

/// The text that the form holds: the value of its last text field, or the
/// empty string when it has none.
pub open spec fn submitted_text(fields: Seq<FormFieldView>) -> Seq<char>
    decreases fields.len(),
{
    if fields.len() == 0 {
        Seq::empty()
    } else {
        match fields.last() {
            FormFieldView::Text(text) => text,
            _ => submitted_text(fields.drop_last()),
        }
    }
}

/// Whether a field is an upload that has content.
pub open spec fn carries_file(field: FormFieldView) -> bool {
    field matches FormFieldView::Attachment(upload) && upload.data.len() > 0
}

/// The uploads with content, in the order of their arrival.
pub open spec fn submitted_uploads(fields: Seq<FormFieldView>) -> Seq<UploadView>
    decreases fields.len(),
{
    if fields.len() == 0 {
        Seq::empty()
    } else {
        let earlier = submitted_uploads(fields.drop_last());
        match fields.last() {
            FormFieldView::Attachment(upload) => if upload.data.len() > 0 {
                earlier.push(upload)
            } else {
                earlier
            },
            _ => earlier,
        }
    }
}

/// The file part made of an upload: name and media type as given, the bytes
/// inline as base64 text.
pub open spec fn inline_part(upload: UploadView) -> PartView {
    PartView::File(
        FilePartView {
            name: upload.file_name,
            mime_type: upload.mime_type,
            source: FileSourceView::Inline(base64_standard(upload.data)),
        },
    )
}

/// The file parts of a form, one for each upload with content.
pub open spec fn attachment_parts(fields: Seq<FormFieldView>) -> Seq<PartView> {
    submitted_uploads(fields).map_values(|upload: UploadView| inline_part(upload))
}

/// The text part of a form, if its text is not empty.
pub open spec fn lead_parts(fields: Seq<FormFieldView>) -> Seq<PartView> {
    if submitted_text(fields).len() > 0 {
        seq![PartView::Text(submitted_text(fields))]
    } else {
        Seq::empty()
    }
}

/// The parts of the message that a form asks for.
pub open spec fn assembled_parts(fields: Seq<FormFieldView>) -> Seq<PartView> {
    lead_parts(fields) + attachment_parts(fields)
}

/// Why a form yields no message, if it does not. A missing task identifier
/// is reported whatever else the form holds.
pub open spec fn rejection(fields: Seq<FormFieldView>) -> Option<ValidationError> {
    if submitted_task_id(fields).len() == 0 {
        Some(ValidationError::MissingTaskId)
    } else if assembled_parts(fields).len() == 0 {
        Some(ValidationError::EmptyMessage)
    } else {
        None
    }
}

/// The message that a form asks for, under the identifier `message_id`.
pub open spec fn assembled_message(
    fields: Seq<FormFieldView>,
    message_id: Seq<char>,
) -> MessageView {
    MessageView {
        role: Role::User,
        parts: assembled_parts(fields),
        message_id,
        task_id: submitted_task_id(fields),
        context_id: None,
    }
}

/// The outcome of assembling a form under the identifier `message_id`.
pub open spec fn assembly(fields: Seq<FormFieldView>, message_id: Seq<char>) -> Result<
    MessageView,
    ValidationError,
> {
    match rejection(fields) {
        Some(error) => Err(error),
        None => Ok(assembled_message(fields, message_id)),
    }
}

/// Reads the fields in order and returns the task identifier and the parts,
/// or the reason why the form is refused.
fn gather(fields: &Vec<FormField>) -> (found: Result<(String, Vec<Part>), ValidationError>)
    ensures
        match found {
            Ok((task_id, parts)) => {
                &&& rejection(fields.deep_view()) is None
                &&& task_id@ == submitted_task_id(fields.deep_view())
                &&& parts.deep_view() == assembled_parts(fields.deep_view())
            },
            Err(error) => rejection(fields.deep_view()) == Some(error),
        },
{
    let ghost all = fields.deep_view();
    let mut task_id = String::new();
    let mut text = String::new();
    let mut parts: Vec<Part> = Vec::new();
    let mut i: usize = 0;
    while i < fields.len()
        invariant
            i <= fields.len(),
            all == fields.deep_view(),
            task_id@ == submitted_task_id(all.take(i as int)),
            text@ == submitted_text(all.take(i as int)),
            parts.deep_view() == attachment_parts(all.take(i as int)),
        decreases fields.len() - i,
    {
        let ghost seen = all.take(i as int);
        let ghost next = all.take(i + 1);
        assert(next.drop_last() == seen);
        assert(next.last() == fields@[i as int]@);
        match &fields[i] {
            FormField::TaskId(value) => {
                task_id = value.clone();
            },
            FormField::Text(value) => {
                text = value.clone();
            },
            FormField::Attachment(upload) => {
                let data = upload.data();
                if data.len() > 0 {
                    let encoded = encode_base64(data.as_slice());
                    let part = Part::inline_file(
                        clone_opt(upload.file_name()),
                        clone_opt(upload.mime_type()),
                        encoded,
                    );
                    let ghost before = parts.deep_view();
                    parts.push(part);
                    assert(parts.deep_view() == before.push(inline_part(upload@)));
                    assert(attachment_parts(next) == attachment_parts(seen).push(
                        inline_part(upload@),
                    ));
                }
            },
            FormField::Unknown(_) => {},
        }
        i += 1;
    }
    assert(all.take(i as int) == all);
    if text.as_str().is_empty() {
        assert(parts.deep_view() == assembled_parts(all));
    } else {
        let ghost files = parts.deep_view();
        parts.insert(0, Part::text(text));
        assert(parts.deep_view() == seq![PartView::Text(submitted_text(all))] + files);
    }
    if task_id.as_str().is_empty() {
        Err(ValidationError::MissingTaskId)
    } else if parts.len() == 0 {
        Err(ValidationError::EmptyMessage)
    } else {
        Ok((task_id, parts))
    }
}

/// Assembles the user message that a form asks for, under the identifier
/// `message_id`.
///
/// The form is refused with `MissingTaskId` when it names no task, or names
/// it by the empty string, and otherwise with `EmptyMessage` when it holds
/// neither text nor an upload with content. Fields of unknown names change
/// nothing.
pub fn assemble(fields: &Vec<FormField>, message_id: String) -> (made: Result<
    Message,
    ValidationError,
>)
    ensures
        match made {
            Ok(message) => assembly(fields.deep_view(), message_id@) == Ok::<
                MessageView,
                ValidationError,
            >(message@),
            Err(error) => assembly(fields.deep_view(), message_id@) == Err::<
                MessageView,
                ValidationError,
            >(error),
        },
{
    match gather(fields) {
        Ok((task_id, parts)) => match Message::new(Role::User, task_id, message_id, parts) {
            Some(message) => Ok(message),
            None => Err(ValidationError::EmptyMessage),
        },
        Err(error) => Err(error),
    }
}

/// Assembles the user message that a form asks for and gives it a fresh
/// identifier. The form is refused exactly as [`assemble`] refuses it, and no
/// identifier is drawn for a refused form.
pub fn compose(fields: &Vec<FormField>) -> (made: Result<Message, ValidationError>)
    ensures
        match made {
            Ok(message) => {
                &&& rejection(fields.deep_view()) is None
                &&& message@ == assembled_message(fields.deep_view(), message@.message_id)
                &&& is_hyphenated_uuid(message@.message_id)
            },
            Err(error) => rejection(fields.deep_view()) == Some(error),
        },
{
    match gather(fields) {
        Ok((task_id, parts)) => {
            let message_id = fresh_id();
            match Message::new(Role::User, task_id, message_id, parts) {
                Some(message) => Ok(message),
                None => Err(ValidationError::EmptyMessage),
            }
        },
        Err(error) => Err(error),
    }
}

/// A form without any upload that has content yields no file part.
pub proof fn lemma_no_uploads(fields: Seq<FormFieldView>)
    requires
        forall|i: int| 0 <= i < fields.len() ==> !carries_file(#[trigger] fields[i]),
    ensures
        submitted_uploads(fields).len() == 0,
        attachment_parts(fields).len() == 0,
    decreases fields.len(),
{
    if fields.len() > 0 {
        let earlier = fields.drop_last();
        assert forall|i: int| 0 <= i < earlier.len() implies !carries_file(
            #[trigger] earlier[i],
        ) by {
            assert(earlier[i] == fields[i]);
        }
        lemma_no_uploads(earlier);
        assert(!carries_file(fields[fields.len() - 1]));
    }
}

/// A form without any task-identifier field names no task.
pub proof fn lemma_no_task_field(fields: Seq<FormFieldView>)
    requires
        forall|i: int| 0 <= i < fields.len() ==> !(#[trigger] fields[i] is TaskId),
    ensures
        submitted_task_id(fields).len() == 0,
    decreases fields.len(),
{
    if fields.len() > 0 {
        let earlier = fields.drop_last();
        assert forall|i: int| 0 <= i < earlier.len() implies !(#[trigger] earlier[i] is TaskId) by {
            assert(earlier[i] == fields[i]);
        }
        lemma_no_task_field(earlier);
        assert(!(fields[fields.len() - 1] is TaskId));
    }
}

/// The task identifier of a form is the value of its last task-identifier
/// field.
pub proof fn lemma_last_task_id_counts(fields: Seq<FormFieldView>, at: int)
    requires
        0 <= at < fields.len(),
        fields[at] is TaskId,
        forall|i: int| at < i < fields.len() ==> !(#[trigger] fields[i] is TaskId),
    ensures
        submitted_task_id(fields) == fields[at]->TaskId_0,
    decreases fields.len(),
{
    if at < fields.len() - 1 {
        let earlier = fields.drop_last();
        assert(!(fields[fields.len() - 1] is TaskId));
        assert(earlier[at] == fields[at]);
        assert forall|i: int| at < i < earlier.len() implies !(#[trigger] earlier[i] is TaskId) by {
            assert(earlier[i] == fields[i]);
        }
        lemma_last_task_id_counts(earlier, at);
    }
}

/// The text of a form is the value of its last text field.
pub proof fn lemma_last_text_counts(fields: Seq<FormFieldView>, at: int)
    requires
        0 <= at < fields.len(),
        fields[at] is Text,
        forall|i: int| at < i < fields.len() ==> !(#[trigger] fields[i] is Text),
    ensures
        submitted_text(fields) == fields[at]->Text_0,
    decreases fields.len(),
{
    if at < fields.len() - 1 {
        let earlier = fields.drop_last();
        assert(!(fields[fields.len() - 1] is Text));
        assert(earlier[at] == fields[at]);
        assert forall|i: int| at < i < earlier.len() implies !(#[trigger] earlier[i] is Text) by {
            assert(earlier[i] == fields[i]);
        }
        lemma_last_text_counts(earlier, at);
    }
}

/// Text alone: a form that names a task, whose text is not empty and which
/// brings no upload with content, yields a message of exactly one part, and
/// that part is the text.
pub proof fn lemma_text_only_form(fields: Seq<FormFieldView>, message_id: Seq<char>)
    requires
        submitted_task_id(fields).len() > 0,
        submitted_text(fields).len() > 0,
        forall|i: int| 0 <= i < fields.len() ==> !carries_file(#[trigger] fields[i]),
    ensures
        assembly(fields, message_id) is Ok,
        assembly(fields, message_id)->Ok_0.parts.len() == 1,
        assembly(fields, message_id)->Ok_0.parts[0] == PartView::Text(submitted_text(fields)),
{
    lemma_no_uploads(fields);
    assert(assembled_parts(fields) =~= seq![PartView::Text(submitted_text(fields))]);
}

/// An upload with content is among the uploads of its form.
pub proof fn lemma_upload_is_counted(fields: Seq<FormFieldView>, at: int)
    requires
        0 <= at < fields.len(),
        carries_file(fields[at]),
    ensures
        submitted_uploads(fields).len() > 0,
        submitted_uploads(fields).contains(fields[at]->Attachment_0),
    decreases fields.len(),
{
    let earlier = fields.drop_last();
    if at == fields.len() - 1 {
        let found = submitted_uploads(fields);
        assert(found[found.len() - 1] == fields[at]->Attachment_0);
    } else {
        assert(earlier[at] == fields[at]);
        lemma_upload_is_counted(earlier, at);
        let before = submitted_uploads(earlier);
        let k = choose|k: int| 0 <= k < before.len() && before[k] == fields[at]->Attachment_0;
        assert(submitted_uploads(fields)[k] == fields[at]->Attachment_0);
    }
}

/// Files alone: a form that names a task, holds no text and brings at least
/// one upload with content yields a message whose parts are the file parts
/// of those uploads, one for each, in the order of their arrival.
pub proof fn lemma_files_only_form(fields: Seq<FormFieldView>, message_id: Seq<char>)
    requires
        submitted_task_id(fields).len() > 0,
        submitted_text(fields).len() == 0,
        exists|i: int| 0 <= i < fields.len() && carries_file(#[trigger] fields[i]),
    ensures
        assembly(fields, message_id) is Ok,
        assembly(fields, message_id)->Ok_0.parts == attachment_parts(fields),
        assembly(fields, message_id)->Ok_0.parts.len() == submitted_uploads(fields).len(),
        assembly(fields, message_id)->Ok_0.parts.len() >= 1,
        forall|k: int|
            0 <= k < submitted_uploads(fields).len() ==> #[trigger] assembly(
                fields,
                message_id,
            )->Ok_0.parts[k] == inline_part(submitted_uploads(fields)[k]),
{
    let at = choose|i: int| 0 <= i < fields.len() && carries_file(#[trigger] fields[i]);
    lemma_upload_is_counted(fields, at);
    assert(assembled_parts(fields) =~= attachment_parts(fields));
}

/// Text leads: in a form that names a task and whose text is not empty, the
/// text is the first part of the message and the file parts follow it.
pub proof fn lemma_text_leads(fields: Seq<FormFieldView>, message_id: Seq<char>)
    requires
        submitted_task_id(fields).len() > 0,
        submitted_text(fields).len() > 0,
    ensures
        assembly(fields, message_id) is Ok,
        assembly(fields, message_id)->Ok_0.parts[0] == PartView::Text(submitted_text(fields)),
        assembly(fields, message_id)->Ok_0.parts.skip(1) == attachment_parts(fields),
{
    assert(assembled_parts(fields).skip(1) =~= attachment_parts(fields));
}

/// A field of unknown name counts for nothing: the form without it is
/// assembled to the same result.
pub proof fn lemma_unknown_field_is_ignored(
    fields: Seq<FormFieldView>,
    at: int,
    message_id: Seq<char>,
)
    requires
        0 <= at < fields.len(),
        fields[at] is Unknown,
    ensures
        submitted_task_id(fields.remove(at)) == submitted_task_id(fields),
        submitted_text(fields.remove(at)) == submitted_text(fields),
        submitted_uploads(fields.remove(at)) == submitted_uploads(fields),
        assembly(fields.remove(at), message_id) == assembly(fields, message_id),
    decreases fields.len(),
{
    let without = fields.remove(at);
    if at == fields.len() - 1 {
        assert(without =~= fields.drop_last());
    } else {
        assert(without.last() == fields.last());
        assert(without.drop_last() =~= fields.drop_last().remove(at));
        assert(fields.drop_last()[at] == fields[at]);
        lemma_unknown_field_is_ignored(fields.drop_last(), at, message_id);
    }
}

/// Nothing to send: a form that names a task but holds neither text nor an
/// upload with content is refused as an empty message.
pub proof fn lemma_empty_form(fields: Seq<FormFieldView>, message_id: Seq<char>)
    requires
        submitted_task_id(fields).len() > 0,
        submitted_text(fields).len() == 0,
        forall|i: int| 0 <= i < fields.len() ==> !carries_file(#[trigger] fields[i]),
    ensures
        assembly(fields, message_id) == Err::<MessageView, ValidationError>(
            ValidationError::EmptyMessage,
        ),
{
    lemma_no_uploads(fields);
}

/// No task: a form without a task-identifier field is refused for the
/// missing identifier, whatever else it holds.
pub proof fn lemma_missing_task_id(fields: Seq<FormFieldView>, message_id: Seq<char>)
    requires
        forall|i: int| 0 <= i < fields.len() ==> !(#[trigger] fields[i] is TaskId),
    ensures
        assembly(fields, message_id) == Err::<MessageView, ValidationError>(
            ValidationError::MissingTaskId,
        ),
{
    lemma_no_task_field(fields);
}

/// The uploads with content keep the order of the form: they are the fields
/// that carry a file, filtered out of the form without reordering.
pub proof fn lemma_uploads_in_arrival_order(fields: Seq<FormFieldView>)
    ensures
        submitted_uploads(fields) == fields.filter(
            |field: FormFieldView| carries_file(field),
        ).map_values(|field: FormFieldView| field->Attachment_0),
    decreases fields.len(),
{
    reveal(Seq::filter);
    let keep = |field: FormFieldView| carries_file(field);
    let content = |field: FormFieldView| field->Attachment_0;
    if fields.len() > 0 {
        lemma_uploads_in_arrival_order(fields.drop_last());
        let earlier = fields.drop_last().filter(keep);
        if carries_file(fields.last()) {
            assert(earlier.push(fields.last()).map_values(content) =~= earlier.map_values(
                content,
            ).push(fields.last()->Attachment_0));
        }
    }
    assert(submitted_uploads(fields) =~= fields.filter(keep).map_values(content));
}

} // verus!

//! Messages and their parts.

use crate::text::clone_opt;
use vstd::prelude::*;

verus! {

/// Who wrote a message.
#[derive(Clone, Copy, Debug, PartialEq, Eq, Structural)]
pub enum Role {
    User,
    Agent,
}

/// Where the content of a file part is found: in the part itself, as base64
/// text, or behind a URI. A file part has exactly one of the two, which the
/// type enforces.
#[derive(Debug, PartialEq, Eq)]
pub enum FileSource {
    Inline(String),
    Uri(String),
}

/// Mathematical value of a [`FileSource`].
pub enum FileSourceView {
    Inline(Seq<char>),
    Uri(Seq<char>),
}

impl View for FileSource {
    type V = FileSourceView;

    open spec fn view(&self) -> FileSourceView {
        match self {
            FileSource::Inline(encoded) => FileSourceView::Inline(encoded@),
            FileSource::Uri(uri) => FileSourceView::Uri(uri@),
        }
    }
}

impl Clone for FileSource {
    fn clone(&self) -> (copy: Self)
        ensures
            copy@ == self@,
    {
        match self {
            FileSource::Inline(encoded) => FileSource::Inline(encoded.clone()),
            FileSource::Uri(uri) => FileSource::Uri(uri.clone()),
        }
    }
}

/// A file carried by a message.
#[derive(Debug, PartialEq, Eq)]
pub struct FilePart {
    pub name: Option<String>,
    pub mime_type: Option<String>,
    pub source: FileSource,
}

/// Mathematical value of a [`FilePart`].
pub struct FilePartView {
    pub name: Option<Seq<char>>,
    pub mime_type: Option<Seq<char>>,
    pub source: FileSourceView,
}

impl View for FilePart {
    type V = FilePartView;

    open spec fn view(&self) -> FilePartView {
        FilePartView {
            name: self.name.deep_view(),
            mime_type: self.mime_type.deep_view(),
            source: self.source@,
        }
    }
}

impl Clone for FilePart {
    fn clone(&self) -> (copy: Self)
        ensures
            copy@ == self@,
    {
        FilePart {
            name: clone_opt(&self.name),
            mime_type: clone_opt(&self.mime_type),
            source: self.source.clone(),
        }
    }
}

/// One unit of message content.
#[derive(Debug, PartialEq, Eq)]
pub enum Part {
    Text(String),
    File(FilePart),
}

/// Mathematical value of a [`Part`].
pub enum PartView {
    Text(Seq<char>),
    File(FilePartView),
}

impl View for Part {
    type V = PartView;

    open spec fn view(&self) -> PartView {
        match self {
            Part::Text(text) => PartView::Text(text@),
            Part::File(file) => PartView::File(file@),
        }
    }
}

impl DeepView for Part {
    type V = PartView;

    open spec fn deep_view(&self) -> PartView {
        self@
    }
}

impl Clone for Part {
    fn clone(&self) -> (copy: Self)
        ensures
            copy@ == self@,
    {
        match self {
            Part::Text(text) => Part::Text(text.clone()),
            Part::File(file) => Part::File(file.clone()),
        }
    }
}

impl Part {
    /// A text part holding `text`.
    pub fn text(text: String) -> (part: Part)
        ensures
            part@ == PartView::Text(text@),
    {
        Part::Text(text)
    }

    /// A file part that carries its content inline, `encoded` being the
    /// base64 text of the content.
    pub fn inline_file(name: Option<String>, mime_type: Option<String>, encoded: String) -> (part:
        Part)
        ensures
            part@ == PartView::File(
                FilePartView {
                    name: name.deep_view(),
                    mime_type: mime_type.deep_view(),
                    source: FileSourceView::Inline(encoded@),
                },
            ),
    {
        Part::File(FilePart { name, mime_type, source: FileSource::Inline(encoded) })
    }
}

/// A message of a task's conversation. It always holds at least one part.
#[derive(Debug, PartialEq, Eq)]
pub struct Message {
    role: Role,
    parts: Vec<Part>,
    message_id: String,
    task_id: String,
    context_id: Option<String>,
}

/// Mathematical value of a [`Message`].
pub struct MessageView {
    pub role: Role,
    pub parts: Seq<PartView>,
    pub message_id: Seq<char>,
    pub task_id: Seq<char>,
    pub context_id: Option<Seq<char>>,
}

impl View for Message {
    type V = MessageView;

    closed spec fn view(&self) -> MessageView {
        MessageView {
            role: self.role,
            parts: self.parts.deep_view(),
            message_id: self.message_id@,
            task_id: self.task_id@,
            context_id: self.context_id.deep_view(),
        }
    }
}

impl DeepView for Message {
    type V = MessageView;

    open spec fn deep_view(&self) -> MessageView {
        self@
    }
}

impl Clone for Message {
    fn clone(&self) -> (copy: Self)
        ensures
            copy@ == self@,
    {
        proof {
            use_type_invariant(self);
        }
        let parts = self.parts.clone();
        assert(parts.deep_view() =~= self.parts.deep_view());
        Message {
            role: self.role,
            parts,
            message_id: self.message_id.clone(),
            task_id: self.task_id.clone(),
            context_id: clone_opt(&self.context_id),
        }
    }
}

impl Message {
    /// A message holds at least one part.
    #[verifier::type_invariant]
    spec fn has_parts(&self) -> bool {
        self.parts@.len() > 0
    }

    /// A message of `role` in task `task_id`, or nothing when `parts` is
    /// empty. The message belongs to no context.
    pub fn new(role: Role, task_id: String, message_id: String, parts: Vec<Part>) -> (made: Option<
        Message,
    >)
        ensures
            made is Some <==> parts.deep_view().len() > 0,
            made matches Some(message) ==> message@ == (MessageView {
                role,
                parts: parts.deep_view(),
                message_id: message_id@,
                task_id: task_id@,
                context_id: None,
            }),
    {
        if parts.len() == 0 {
            None
        } else {
            Some(Message { role, parts, message_id, task_id, context_id: None })
        }
    }

    /// A message of `role` in task `task_id` that holds the one part `part`.
    /// The message belongs to no context.
    pub fn single(role: Role, task_id: String, message_id: String, part: Part) -> (message: Message)
        ensures
            message@ == (MessageView {
                role,
                parts: seq![part@],
                message_id: message_id@,
                task_id: task_id@,
                context_id: None,
            }),
    {
        let mut parts: Vec<Part> = Vec::new();
        parts.push(part);
        assert(parts.deep_view() =~= seq![part@]);
        Message { role, parts, message_id, task_id, context_id: None }
    }

    /// Who wrote the message.
    pub fn role(&self) -> (role: Role)
        ensures
            role == self@.role,
    {
        self.role
    }

    /// The parts of the message, in order; there is at least one.
    pub fn parts(&self) -> (parts: &Vec<Part>)
        ensures
            parts.deep_view() == self@.parts,
            parts@.len() > 0,
    {
        proof {
            use_type_invariant(self);
        }
        &self.parts
    }

    /// The identifier of the message.
    pub fn message_id(&self) -> (id: &String)
        ensures
            id@ == self@.message_id,
    {
        &self.message_id
    }

    /// The identifier of the task that the message belongs to.
    pub fn task_id(&self) -> (id: &String)
        ensures
            id@ == self@.task_id,
    {
        &self.task_id
    }

    /// The identifier of the context that the message belongs to, if any.
    pub fn context_id(&self) -> (id: &Option<String>)
        ensures
            id.deep_view() == self@.context_id,
    {
        &self.context_id
    }
}

} // verus!

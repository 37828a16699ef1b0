//! The payloads of the container operations.

use crate::common::json::lookup;
use crate::common::json::members_view;
use crate::common::json::optional_strings_view;
use crate::common::json::optional_text_list_field;
use crate::common::json::spec_optional_text_list_field;
use crate::common::json::spec_text_field;
use crate::common::json::strings_view;
use crate::common::json::text_field;
use crate::common::json::texts;
use crate::common::json::Json;
use crate::common::json::JsonView;
use crate::common::resp::Payload;
use crate::common::resp::KEY_PAGE_NO;
use crate::common::resp::KEY_PAGE_SIZE;
use crate::common::resp::Wire;
use vstd::prelude::*;

verus! {

/// Wire name of the image of a run request.
pub const KEY_IMAGE: &'static str = "image";

/// Wire name of a container identifier.
pub const KEY_CONTAINER_ID: &'static str = "containerId";

/// Wire name of the command of an exec request.
pub const KEY_COMMAND: &'static str = "command";

/// Wire name of the engine's version.
pub const KEY_VERSION: &'static str = "Version";

/// Wire name of the engine's operating system.
pub const KEY_OS: &'static str = "Os";

/// Wire name of the engine's architecture.
pub const KEY_ARCH: &'static str = "Arch";

/// Wire name of the engine's kernel version.
pub const KEY_KERNEL_VERSION: &'static str = "KernelVersion";

/// What the engine reports of itself. Each field is kept as reported: a
/// field that the engine leaves out stays absent.
#[derive(Debug, Clone, PartialEq, Eq)]
pub struct DockerVersionInfo {
    pub version: Option<String>,
    /// The operating system that the daemon is running on.
    pub os: Option<String>,
    pub arch: Option<String>,
    pub kernel_version: Option<String>,
}

/// The mathematical model of a `DockerVersionInfo`.
pub ghost struct DockerVersionInfoView {
    pub version: Option<Seq<char>>,
    pub os: Option<Seq<char>>,
    pub arch: Option<Seq<char>>,
    pub kernel_version: Option<Seq<char>>,
}

/// The model of an optional string.
pub open spec fn optional_text_view(text: Option<String>) -> Option<Seq<char>> {
    match text {
        Some(text) => Some(text@),
        None => None,
    }
}

impl View for DockerVersionInfo {
    type V = DockerVersionInfoView;

    open spec fn view(&self) -> DockerVersionInfoView {
        DockerVersionInfoView {
            version: optional_text_view(self.version),
            os: optional_text_view(self.os),
            arch: optional_text_view(self.arch),
            kernel_version: optional_text_view(self.kernel_version),
        }
    }
}

/// The document that a member holds for an optional text, if there is a member.
pub open spec fn optional_text_json(text: Option<Seq<char>>) -> Option<JsonView> {
    match text {
        Some(text) => Some(JsonView::Text(text)),
        None => None,
    }
}

/// The member that stands for an optional text: none for an absent one.
pub open spec fn optional_member(key: Seq<char>, text: Option<Seq<char>>) -> Seq<
    (Seq<char>, JsonView),
> {
    match text {
        Some(text) => seq![(key, JsonView::Text(text))],
        None => seq![],
    }
}

impl DockerVersionInfoView {
    /// The members that stand for the report on the wire: the engine's own
    /// names, and no member for an absent field.
    pub open spec fn fields(self) -> Seq<(Seq<char>, JsonView)> {
        optional_member(KEY_VERSION@, self.version) + optional_member(KEY_OS@, self.os)
            + optional_member(KEY_ARCH@, self.arch) + optional_member(
            KEY_KERNEL_VERSION@,
            self.kernel_version,
        )
    }
}

fn push_optional_member(members: &mut Vec<(String, Json)>, key: &str, text: &Option<String>)
    ensures
        members_view(final(members)@) == members_view(old(members)@) + optional_member(
            key@,
            optional_text_view(*text),
        ),
{
    match text {
        Some(text) => {
            members.push((key.to_string(), Json::Text(text.clone())));
            assert(members_view(members@) =~= members_view(old(members)@) + optional_member(
                key@,
                Some(text@),
            ));
        },
        None => {
            assert(members_view(members@) =~= members_view(old(members)@) + optional_member(
                key@,
                None,
            ));
        },
    }
}

impl DockerVersionInfo {
    /// The report made of what the engine gave for each field.
    pub fn new(
        version: Option<String>,
        os: Option<String>,
        arch: Option<String>,
        kernel_version: Option<String>,
    ) -> (info: Self)
        ensures
            info.version == version,
            info.os == os,
            info.arch == arch,
            info.kernel_version == kernel_version,
    {
        DockerVersionInfo { version, os, arch, kernel_version }
    }

    /// The report as a JSON object.
    pub fn to_json(&self) -> (doc: Json)
        ensures
            doc@ == JsonView::Object(self@.fields()),
    {
        let mut members: Vec<(String, Json)> = Vec::new();
        assert(members_view(members@) =~= seq![]);
        push_optional_member(&mut members, KEY_VERSION, &self.version);
        push_optional_member(&mut members, KEY_OS, &self.os);
        push_optional_member(&mut members, KEY_ARCH, &self.arch);
        push_optional_member(&mut members, KEY_KERNEL_VERSION, &self.kernel_version);
        assert(members_view(members@) =~= self@.fields());
        Json::Object(members)
    }
}

/// Looking a name up behind an optional member finds that member where it
/// is present under that name, and else what stands in front.
pub proof fn lemma_lookup_optional_member(
    before: Seq<(Seq<char>, JsonView)>,
    name: Seq<char>,
    text: Option<Seq<char>>,
    key: Seq<char>,
)
    ensures
        lookup(before + optional_member(name, text), key) == (if name == key && text is Some {
            Some(JsonView::Text(text->Some_0))
        } else {
            lookup(before, key)
        }),
{
    match text {
        Some(text) => {
            if name == key {
                lemma_lookup_last(before, key, JsonView::Text(text));
            } else {
                lemma_lookup_skips(before, name, JsonView::Text(text), key);
            }
        },
        None => {
            assert(before + optional_member(name, None) =~= before);
        },
    }
}

/// The wire names of the fields of the report differ from each other.
pub proof fn lemma_version_keys_differ()
    ensures
        KEY_VERSION@ != KEY_OS@,
        KEY_VERSION@ != KEY_ARCH@,
        KEY_VERSION@ != KEY_KERNEL_VERSION@,
        KEY_OS@ != KEY_ARCH@,
        KEY_OS@ != KEY_KERNEL_VERSION@,
        KEY_ARCH@ != KEY_KERNEL_VERSION@,
{
    reveal_strlit("Version");
    reveal_strlit("Os");
    reveal_strlit("Arch");
    reveal_strlit("KernelVersion");
    assert(KEY_VERSION@.len() == 7);
    assert(KEY_OS@.len() == 2);
    assert(KEY_ARCH@.len() == 4);
    assert(KEY_KERNEL_VERSION@.len() == 13);
}

/// On the wire a field of the report is a member exactly if the engine
/// reported it, and the member holds what the engine reported.
pub proof fn lemma_version_wire_keeps_presence(model: DockerVersionInfoView)
    ensures
        lookup(model.fields(), KEY_VERSION@) == optional_text_json(model.version),
        lookup(model.fields(), KEY_OS@) == optional_text_json(model.os),
        lookup(model.fields(), KEY_ARCH@) == optional_text_json(model.arch),
        lookup(model.fields(), KEY_KERNEL_VERSION@) == optional_text_json(model.kernel_version),
{
    lemma_version_keys_differ();
    let first = optional_member(KEY_VERSION@, model.version);
    let second = first + optional_member(KEY_OS@, model.os);
    let third = second + optional_member(KEY_ARCH@, model.arch);
    assert(Seq::<(Seq<char>, JsonView)>::empty() + first =~= first);
    assert(lookup(Seq::<(Seq<char>, JsonView)>::empty(), KEY_VERSION@) is None);
    assert(lookup(Seq::<(Seq<char>, JsonView)>::empty(), KEY_OS@) is None);
    assert(lookup(Seq::<(Seq<char>, JsonView)>::empty(), KEY_ARCH@) is None);
    assert(lookup(Seq::<(Seq<char>, JsonView)>::empty(), KEY_KERNEL_VERSION@) is None);
    lemma_lookup_optional_member(Seq::empty(), KEY_VERSION@, model.version, KEY_VERSION@);
    lemma_lookup_optional_member(Seq::empty(), KEY_VERSION@, model.version, KEY_OS@);
    lemma_lookup_optional_member(Seq::empty(), KEY_VERSION@, model.version, KEY_ARCH@);
    lemma_lookup_optional_member(Seq::empty(), KEY_VERSION@, model.version, KEY_KERNEL_VERSION@);
    lemma_lookup_optional_member(first, KEY_OS@, model.os, KEY_VERSION@);
    lemma_lookup_optional_member(first, KEY_OS@, model.os, KEY_OS@);
    lemma_lookup_optional_member(first, KEY_OS@, model.os, KEY_ARCH@);
    lemma_lookup_optional_member(first, KEY_OS@, model.os, KEY_KERNEL_VERSION@);
    lemma_lookup_optional_member(second, KEY_ARCH@, model.arch, KEY_VERSION@);
    lemma_lookup_optional_member(second, KEY_ARCH@, model.arch, KEY_OS@);
    lemma_lookup_optional_member(second, KEY_ARCH@, model.arch, KEY_ARCH@);
    lemma_lookup_optional_member(second, KEY_ARCH@, model.arch, KEY_KERNEL_VERSION@);
    lemma_lookup_optional_member(third, KEY_KERNEL_VERSION@, model.kernel_version, KEY_VERSION@);
    lemma_lookup_optional_member(third, KEY_KERNEL_VERSION@, model.kernel_version, KEY_OS@);
    lemma_lookup_optional_member(third, KEY_KERNEL_VERSION@, model.kernel_version, KEY_ARCH@);
    lemma_lookup_optional_member(
        third,
        KEY_KERNEL_VERSION@,
        model.kernel_version,
        KEY_KERNEL_VERSION@,
    );
}

impl Wire for DockerVersionInfo {
    open spec fn wire(model: DockerVersionInfoView) -> JsonView {
        JsonView::Object(model.fields())
    }

    fn to_wire(&self) -> (doc: Json) {
        self.to_json()
    }
}

/// The request to start a container from an image.
#[derive(Debug, Clone, PartialEq, Eq)]
pub struct ReqRunContainer {
    /// The image reference, in the form `repository:tag`.
    pub image: String,
}

/// The mathematical model of a `ReqRunContainer`.
pub ghost struct ReqRunContainerView {
    pub image: Seq<char>,
}

impl View for ReqRunContainer {
    type V = ReqRunContainerView;

    open spec fn view(&self) -> ReqRunContainerView {
        ReqRunContainerView { image: self.image@ }
    }
}

/// A request that names a container.
#[derive(Debug, Clone, PartialEq, Eq)]
pub struct ReqContainer {
    pub container_id: String,
}

/// The mathematical model of a `ReqContainer`.
pub ghost struct ReqContainerView {
    pub container_id: Seq<char>,
}

impl View for ReqContainer {
    type V = ReqContainerView;

    open spec fn view(&self) -> ReqContainerView {
        ReqContainerView { container_id: self.container_id@ }
    }
}

/// The request to run a command inside a container.
#[derive(Debug, Clone, PartialEq, Eq)]
pub struct ReqExecContainer {
    /// The command and its arguments; the engine's default where absent.
    pub command: Option<Vec<String>>,
    pub container_id: ReqContainer,
}

/// The mathematical model of a `ReqExecContainer`.
pub ghost struct ReqExecContainerView {
    pub command: Option<Seq<Seq<char>>>,
    pub container_id: ReqContainerView,
}

impl View for ReqExecContainer {
    type V = ReqExecContainerView;

    open spec fn view(&self) -> ReqExecContainerView {
        ReqExecContainerView {
            command: optional_strings_view(self.command),
            container_id: self.container_id@,
        }
    }
}

/// The document that stands for a list of texts.
pub open spec fn text_list_json(list: Seq<Seq<char>>) -> JsonView {
    JsonView::List(Seq::new(list.len(), |i: int| JsonView::Text(list[i])))
}

/// The document that stands for an optional command: `null` for none.
pub open spec fn command_json(command: Option<Seq<Seq<char>>>) -> JsonView {
    match command {
        Some(list) => text_list_json(list),
        None => JsonView::Null,
    }
}

/// Looking a name up in members that end with that name finds the last value.
pub proof fn lemma_lookup_last(
    before: Seq<(Seq<char>, JsonView)>,
    key: Seq<char>,
    value: JsonView,
)
    ensures
        lookup(before + seq![(key, value)], key) == Some(value),
{
    let all = before + seq![(key, value)];
    assert(all.last() == (key, value));
}

/// Looking a name up skips a last member of another name.
pub proof fn lemma_lookup_skips(
    before: Seq<(Seq<char>, JsonView)>,
    other: Seq<char>,
    value: JsonView,
    key: Seq<char>,
)
    requires
        other != key,
    ensures
        lookup(before + seq![(other, value)], key) == lookup(before, key),
{
    let all = before + seq![(other, value)];
    assert(all.last() == (other, value));
    assert(all.drop_last() =~= before);
}

/// The wire names of the payloads differ from those of the pagination.
pub proof fn lemma_payload_keys_are_no_pagination()
    ensures
        KEY_IMAGE@ != KEY_PAGE_NO@,
        KEY_IMAGE@ != KEY_PAGE_SIZE@,
        KEY_CONTAINER_ID@ != KEY_PAGE_NO@,
        KEY_CONTAINER_ID@ != KEY_PAGE_SIZE@,
        KEY_COMMAND@ != KEY_PAGE_NO@,
        KEY_COMMAND@ != KEY_PAGE_SIZE@,
{
    reveal_strlit("image");
    reveal_strlit("containerId");
    reveal_strlit("command");
    reveal_strlit("pageNo");
    reveal_strlit("pageSize");
    assert(KEY_IMAGE@.len() == 5);
    assert(KEY_CONTAINER_ID@.len() == 11);
    assert(KEY_COMMAND@.len() == 7);
    assert(KEY_PAGE_NO@.len() == 6);
    assert(KEY_PAGE_SIZE@.len() == 8);
}

impl Payload for ReqRunContainer {
    open spec fn decoded(doc: JsonView) -> Result<ReqRunContainerView, Seq<char>> {
        match spec_text_field(doc, KEY_IMAGE@) {
            Ok(image) => Ok(ReqRunContainerView { image }),
            Err(fault) => Err(fault),
        }
    }

    open spec fn fields(model: ReqRunContainerView) -> Seq<(Seq<char>, JsonView)> {
        seq![(KEY_IMAGE@, JsonView::Text(model.image))]
    }

    fn from_json(doc: &Json) -> (r: Result<Self, String>) {
        match text_field(doc, KEY_IMAGE) {
            Ok(image) => Ok(ReqRunContainer { image }),
            Err(fault) => Err(fault),
        }
    }

    fn to_fields(&self) -> (members: Vec<(String, Json)>) {
        let mut members: Vec<(String, Json)> = Vec::new();
        members.push((KEY_IMAGE.to_string(), Json::Text(self.image.clone())));
        assert(members_view(members@) =~= Self::fields(self@));
        members
    }

    proof fn decoded_inverts_fields(model: ReqRunContainerView, before: Seq<(Seq<char>, JsonView)>) {
        lemma_lookup_last(before, KEY_IMAGE@, JsonView::Text(model.image));
    }

    proof fn fields_leave_pagination(model: ReqRunContainerView) {
        lemma_payload_keys_are_no_pagination();
    }
}

impl Payload for ReqContainer {
    open spec fn decoded(doc: JsonView) -> Result<ReqContainerView, Seq<char>> {
        match spec_text_field(doc, KEY_CONTAINER_ID@) {
            Ok(container_id) => Ok(ReqContainerView { container_id }),
            Err(fault) => Err(fault),
        }
    }

    open spec fn fields(model: ReqContainerView) -> Seq<(Seq<char>, JsonView)> {
        seq![(KEY_CONTAINER_ID@, JsonView::Text(model.container_id))]
    }

    fn from_json(doc: &Json) -> (r: Result<Self, String>) {
        match text_field(doc, KEY_CONTAINER_ID) {
            Ok(container_id) => Ok(ReqContainer { container_id }),
            Err(fault) => Err(fault),
        }
    }

    fn to_fields(&self) -> (members: Vec<(String, Json)>) {
        let mut members: Vec<(String, Json)> = Vec::new();
        members.push((KEY_CONTAINER_ID.to_string(), Json::Text(self.container_id.clone())));
        assert(members_view(members@) =~= Self::fields(self@));
        members
    }

    proof fn decoded_inverts_fields(model: ReqContainerView, before: Seq<(Seq<char>, JsonView)>) {
        lemma_lookup_last(before, KEY_CONTAINER_ID@, JsonView::Text(model.container_id));
    }

    proof fn fields_leave_pagination(model: ReqContainerView) {
        lemma_payload_keys_are_no_pagination();
    }
}

/// The JSON list that stands for a list of strings.
pub fn text_list_to_json(list: &Vec<String>) -> (doc: Json)
    ensures
        doc@ == text_list_json(strings_view(list@)),
{
    let mut items: Vec<Json> = Vec::new();
    let mut i: usize = 0;
    while i < list.len()
        invariant
            i <= list.len(),
            items@.len() == i,
            forall|k: int| 0 <= k < i ==> #[trigger] items@[k]@ == JsonView::Text(list@[k]@),
        decreases list.len() - i,
    {
        items.push(Json::Text(list[i].clone()));
        i = i + 1;
    }
    let doc = Json::List(items);
    proof {
        let written = doc@->List_0;
        let wanted = text_list_json(strings_view(list@))->List_0;
        assert(written.len() == wanted.len());
        assert forall|k: int| 0 <= k < written.len() implies written[k] == wanted[k] by {
            assert(written[k] == items@[k]@);
        }
        assert(written =~= wanted);
    }
    doc
}

/// A list of texts, written as JSON, reads back as the same texts.
pub proof fn lemma_text_list_reads_back(list: Seq<Seq<char>>)
    ensures
        text_list_json(list).text_list() == Some(list),
{
    let items = text_list_json(list)->List_0;
    assert(forall|i: int| 0 <= i < items.len() ==> #[trigger] items[i] is Text);
    assert(texts(items)->Some_0 =~= list);
}

/// The wire names of the container identifier and of the command differ.
pub proof fn lemma_exec_keys_differ()
    ensures
        KEY_CONTAINER_ID@ != KEY_COMMAND@,
{
    reveal_strlit("containerId");
    reveal_strlit("command");
    assert(KEY_CONTAINER_ID@.len() != KEY_COMMAND@.len());
}

impl Payload for ReqExecContainer {
    open spec fn decoded(doc: JsonView) -> Result<ReqExecContainerView, Seq<char>> {
        match spec_text_field(doc, KEY_CONTAINER_ID@) {
            Err(fault) => Err(fault),
            Ok(container_id) => match spec_optional_text_list_field(doc, KEY_COMMAND@) {
                Err(fault) => Err(fault),
                Ok(command) => Ok(
                    ReqExecContainerView {
                        command,
                        container_id: ReqContainerView { container_id },
                    },
                ),
            },
        }
    }

    open spec fn fields(model: ReqExecContainerView) -> Seq<(Seq<char>, JsonView)> {
        seq![
            (KEY_CONTAINER_ID@, JsonView::Text(model.container_id.container_id)),
            (KEY_COMMAND@, command_json(model.command)),
        ]
    }

    fn from_json(doc: &Json) -> (r: Result<Self, String>) {
        match text_field(doc, KEY_CONTAINER_ID) {
            Err(fault) => Err(fault),
            Ok(container_id) => match optional_text_list_field(doc, KEY_COMMAND) {
                Err(fault) => Err(fault),
                Ok(command) => Ok(
                    ReqExecContainer { command, container_id: ReqContainer { container_id } },
                ),
            },
        }
    }

    fn to_fields(&self) -> (members: Vec<(String, Json)>) {
        let mut members: Vec<(String, Json)> = Vec::new();
        members.push(
            (KEY_CONTAINER_ID.to_string(), Json::Text(self.container_id.container_id.clone())),
        );
        let command = match &self.command {
            Some(list) => text_list_to_json(list),
            None => Json::Null,
        };
        members.push((KEY_COMMAND.to_string(), command));
        assert(members_view(members@) =~= Self::fields(self@));
        members
    }

    proof fn decoded_inverts_fields(model: ReqExecContainerView, before: Seq<(Seq<char>, JsonView)>) {
        let identifier = (KEY_CONTAINER_ID@, JsonView::Text(model.container_id.container_id));
        let command = (KEY_COMMAND@, command_json(model.command));
        let front = before + seq![identifier];
        assert(before + Self::fields(model) =~= front + seq![command]);
        lemma_exec_keys_differ();
        lemma_lookup_last(front, KEY_COMMAND@, command.1);
        lemma_lookup_skips(front, KEY_COMMAND@, command.1, KEY_CONTAINER_ID@);
        lemma_lookup_last(before, KEY_CONTAINER_ID@, identifier.1);
        match model.command {
            Some(list) => {
                lemma_text_list_reads_back(list);
            },
            None => {},
        }
    }

    proof fn fields_leave_pagination(model: ReqExecContainerView) {
        lemma_payload_keys_are_no_pagination();
    }
}

} // verus!

//! Spaces: the tenants of the node, and the list of them that the node keeps
//! in memory.

use vstd::prelude::*;
use crate::tasks::reply::{ReplyTask, ReplyTaskInfo};
use crate::tasks::upload_file::{is_supported, spec_supported_extensions};
use crate::tasks::{Lifecycle, Task};
use crate::text::{after_last, before_first, same_text, text_after_last, text_before_first};
use crate::utils::{id_text, new_id, u2s};

verus! {

/// What a space is called.
#[derive(Debug)]
pub struct Meta {
    pub id: u128,
    pub name: String,
    pub description: String,
}

pub struct MetaView {
    pub id: u128,
    pub name: Seq<char>,
    pub description: Seq<char>,
}

impl View for Meta {
    type V = MetaView;

    open spec fn view(&self) -> MetaView {
        MetaView { id: self.id, name: self.name@, description: self.description@ }
    }
}

impl Clone for Meta {
    fn clone(&self) -> (copy: Meta)
        ensures
            copy@ == self@,
    {
        Meta { id: self.id, name: self.name.clone(), description: self.description.clone() }
    }
}

/// A space: it owns files, messages and tasks, and belongs to one user.
#[derive(Debug)]
pub struct Space {
    pub id: u128,
    pub owner_id: u128,
    pub meta: Meta,
}

pub struct SpaceView {
    pub id: u128,
    pub owner_id: u128,
    pub meta: MetaView,
}

impl View for Space {
    type V = SpaceView;

    open spec fn view(&self) -> SpaceView {
        SpaceView { id: self.id, owner_id: self.owner_id, meta: self.meta@ }
    }
}

impl Clone for Space {
    fn clone(&self) -> (copy: Space)
        ensures
            copy@ == self@,
    {
        Space { id: self.id, owner_id: self.owner_id, meta: self.meta.clone() }
    }
}

/// A space as its owner sees it in a list.
#[derive(Debug)]
pub struct SpaceWrapped {
    pub id: u128,
    pub meta: Meta,
}

pub struct SpaceWrappedView {
    pub id: u128,
    pub meta: MetaView,
}

impl View for SpaceWrapped {
    type V = SpaceWrappedView;

    open spec fn view(&self) -> SpaceWrappedView {
        SpaceWrappedView { id: self.id, meta: self.meta@ }
    }
}

/// Why an operation on the list of spaces was refused.
#[derive(Clone, Copy, Debug, PartialEq, Eq, Structural)]
pub enum SpaceError {
    /// The list holds no space of that identity.
    SpaceNotFound,
}

impl SpaceError {
    pub fn message(&self) -> (text: &'static str)
        ensures
            text@ == "Space not found"@,
    {
        "Space not found"
    }
}

/// The user message that a space asks the store to create.
pub struct NewUserMessage {
    pub id: u128,
    pub id_str: String,
    pub text: String,
    pub space_id: u128,
}

pub struct NewUserMessageView {
    pub id: u128,
    pub id_str: Seq<char>,
    pub text: Seq<char>,
    pub space_id: u128,
}

impl View for NewUserMessage {
    type V = NewUserMessageView;

    open spec fn view(&self) -> NewUserMessageView {
        NewUserMessageView {
            id: self.id,
            id_str: self.id_str@,
            text: self.text@,
            space_id: self.space_id,
        }
    }
}

impl Space {
    /// What a message of the user sets going, with the identity
    /// `message_id` for the message and `task_id` for the task: the message
    /// to store, and the task that will answer it.
    pub fn receieve_msg_with_ids(&self, msg: String, message_id: u128, task_id: u128) -> (r: (
        NewUserMessage,
        Task<ReplyTask>,
    ))
        ensures
            r.0@ == (NewUserMessageView {
                id: message_id,
                id_str: id_text(message_id),
                text: msg@,
                space_id: self.id,
            }),
            r.1.id == task_id,
            r.1.lifecycle == Lifecycle::Created,
            r.1.wait is Idle,
            r.1.task_info.data is None,
            r.1.task_info.info.message_id == message_id,
            r.1.task_info.info.message_text@ == msg@,
    {
        let info = ReplyTaskInfo { message_id, message_text: msg.clone() };
        let message = NewUserMessage {
            id: message_id,
            id_str: u2s(message_id),
            text: msg,
            space_id: self.id,
        };
        (message, Task::with_id(task_id, info))
    }

    /// What a message of the user sets going, under fresh identities.
    pub fn receieve_msg_from_user(&self, msg: String) -> (r: (NewUserMessage, Task<ReplyTask>))
        ensures
            r.0.text@ == msg@,
            r.0.space_id == self.id,
            r.0.id_str@ == id_text(r.0.id),
            r.1.lifecycle == Lifecycle::Created,
            r.1.wait is Idle,
            r.1.task_info.data is None,
            r.1.task_info.info.message_id == r.0.id,
            r.1.task_info.info.message_text@ == msg@,
    {
        let message_id = new_id();
        let task_id = new_id();
        self.receieve_msg_with_ids(msg, message_id, task_id)
    }
}

/// How a new space is described where its maker gives no description.
pub const NEW_SPACE_DESCRIPTION: &'static str = "A new space";

/// The name of the demo space.
pub open spec fn demo_name() -> Seq<char> {
    "CS 229"@
}

/// The description of the demo space.
pub open spec fn demo_description() -> Seq<char> {
    "Demo space for CS 229"@
}

/// The first question that is asked in the demo space.
pub const DEMO_QUESTION: &'static str = "Explain Jensen's inequality step by step";

/// A file of the demo space, as the store is asked to create it.
pub struct DemoFile {
    pub id: u128,
    pub id_str: String,
    /// Where the file was copied from.
    pub path: String,
    pub name: String,
    pub extension: String,
    pub space_id: u128,
    pub learned: bool,
    pub supported: bool,
}

pub struct DemoFileView {
    pub id: u128,
    pub id_str: Seq<char>,
    pub path: Seq<char>,
    pub name: Seq<char>,
    pub extension: Seq<char>,
    pub space_id: u128,
    pub learned: bool,
    pub supported: bool,
}

impl View for DemoFile {
    type V = DemoFileView;

    open spec fn view(&self) -> DemoFileView {
        DemoFileView {
            id: self.id,
            id_str: self.id_str@,
            path: self.path@,
            name: self.name@,
            extension: self.extension@,
            space_id: self.space_id,
            learned: self.learned,
            supported: self.supported,
        }
    }
}

/// The view of an optional demo file.
pub open spec fn demo_view(file: Option<DemoFile>) -> Option<DemoFileView> {
    match file {
        Some(f) => Some(f@),
        None => None,
    }
}

/// The file row for the entry `file_name` of the demo directory, found at
/// `source_path`: none for the vector index, which is copied as a whole;
/// for any other entry a file that counts as learned already.
pub open spec fn spec_demo_file(
    file_name: Seq<char>,
    source_path: Seq<char>,
    id: u128,
    space_id: u128,
) -> Option<DemoFileView> {
    if file_name == "vector_db"@ {
        None
    } else {
        Some(
            DemoFileView {
                id,
                id_str: id_text(id),
                path: source_path,
                name: before_first(file_name, '.'),
                extension: after_last(file_name, '.'),
                space_id,
                learned: true,
                supported: spec_supported_extensions().contains(after_last(file_name, '.')),
            },
        )
    }
}

/// The file row for the entry `file_name` of the demo directory.
pub fn demo_file(file_name: &str, source_path: &str, id: u128, space_id: u128) -> (file: Option<
    DemoFile,
>)
    ensures
        demo_view(file) == spec_demo_file(file_name@, source_path@, id, space_id),
{
    if same_text(file_name, "vector_db") {
        None
    } else {
        let extension = text_after_last(file_name, '.');
        let name = text_before_first(file_name, '.');
        let supported = is_supported(extension.as_str());
        Some(
            DemoFile {
                id,
                id_str: u2s(id),
                path: source_path.to_owned(),
                name,
                extension,
                space_id,
                learned: true,
                supported,
            },
        )
    }
}

/// The views of a list of spaces.
pub open spec fn spaces_view(spaces: Seq<Space>) -> Seq<SpaceView> {
    spaces.map_values(|s: Space| s@)
}

/// The views of a list of wrapped spaces.
pub open spec fn wrapped_view(spaces: Seq<SpaceWrapped>) -> Seq<SpaceWrappedView> {
    spaces.map_values(|s: SpaceWrapped| s@)
}

/// The spaces other than `id`, in their order.
pub open spec fn without(spaces: Seq<SpaceView>, id: u128) -> Seq<SpaceView>
    decreases spaces.len(),
{
    if spaces.len() == 0 {
        spaces
    } else if spaces.last().id == id {
        without(spaces.drop_last(), id)
    } else {
        without(spaces.drop_last(), id).push(spaces.last())
    }
}

/// The spaces that belong to `owner`, in their order, as their owner sees
/// them.
pub open spec fn owned_by(spaces: Seq<SpaceView>, owner: u128) -> Seq<SpaceWrappedView>
    decreases spaces.len(),
{
    if spaces.len() == 0 {
        Seq::empty()
    } else if spaces.last().owner_id == owner {
        owned_by(spaces.drop_last(), owner).push(
            SpaceWrappedView { id: spaces.last().id, meta: spaces.last().meta },
        )
    } else {
        owned_by(spaces.drop_last(), owner)
    }
}

/// The first space of the identity `id`; `None` where there is none.
pub open spec fn first_of(spaces: Seq<SpaceView>, id: u128) -> Option<SpaceView>
    decreases spaces.len(),
{
    if spaces.len() == 0 {
        None
    } else if spaces.first().id == id {
        Some(spaces.first())
    } else {
        first_of(spaces.drop_first(), id)
    }
}

/// `first_of` finds a space exactly where the list holds one of that
/// identity, and what it finds has that identity and is in the list.
pub proof fn lemma_first_of(spaces: Seq<SpaceView>, id: u128)
    ensures
        first_of(spaces, id) is Some <==> exists|i: int|
            0 <= i < spaces.len() && (#[trigger] spaces[i]).id == id,
        first_of(spaces, id) matches Some(s) ==> s.id == id && spaces.contains(s),
    decreases spaces.len(),
{
    if spaces.len() > 0 {
        let rest = spaces.drop_first();
        lemma_first_of(rest, id);
        if spaces.first().id == id {
            assert(spaces[0].id == id);
        } else {
            if first_of(rest, id) is Some {
                let i = choose|i: int| 0 <= i < rest.len() && (#[trigger] rest[i]).id == id;
                assert(spaces[i + 1].id == id);
                let s = first_of(rest, id)->0;
                let k = choose|k: int| 0 <= k < rest.len() && rest[k] == s;
                assert(spaces[k + 1] == s);
            }
            if exists|i: int| 0 <= i < spaces.len() && (#[trigger] spaces[i]).id == id {
                let i = choose|i: int| 0 <= i < spaces.len() && (#[trigger] spaces[i]).id == id;
                assert(rest[i - 1].id == id);
            }
        }
    }
}

/// No space of the identity `id` is left in `without`, and every other
/// space is.
pub proof fn lemma_without(spaces: Seq<SpaceView>, id: u128)
    ensures
        forall|i: int|
            0 <= i < without(spaces, id).len() ==> (#[trigger] without(spaces, id)[i]).id != id
                && spaces.contains(without(spaces, id)[i]),
        forall|i: int|
            0 <= i < spaces.len() && (#[trigger] spaces[i]).id != id ==> without(
                spaces,
                id,
            ).contains(spaces[i]),
        without(spaces, id).len() <= spaces.len(),
    decreases spaces.len(),
{
    if spaces.len() > 0 {
        let init = spaces.drop_last();
        lemma_without(init, id);
        let w = without(spaces, id);
        let wi = without(init, id);
        assert forall|i: int| 0 <= i < w.len() implies (#[trigger] w[i]).id != id
            && spaces.contains(w[i]) by {
            if i < wi.len() {
                assert(w[i] == wi[i]);
                let k = choose|k: int| 0 <= k < init.len() && init[k] == wi[i];
                assert(spaces[k] == wi[i]);
            } else {
                assert(w[i] == spaces.last());
                assert(spaces[spaces.len() - 1] == w[i]);
            }
        }
        assert forall|i: int| 0 <= i < spaces.len() && (#[trigger] spaces[i]).id != id implies w.contains(
            spaces[i],
        ) by {
            if i < init.len() {
                assert(init[i] == spaces[i]);
                let k = choose|k: int| 0 <= k < wi.len() && wi[k] == init[i];
                assert(w[k] == spaces[i]);
            } else {
                assert(w[w.len() - 1] == spaces[i]);
            }
        }
    }
}

/// The spaces that the node keeps in memory.
pub struct SpaceManager {
    pub spaces: Vec<Space>,
}

impl View for SpaceManager {
    type V = Seq<SpaceView>;

    open spec fn view(&self) -> Seq<SpaceView> {
        spaces_view(self.spaces@)
    }
}

impl SpaceManager {
    /// The manager of the spaces that the store holds.
    pub fn new(spaces: Vec<Space>) -> (manager: SpaceManager)
        ensures
            manager@ == spaces_view(spaces@),
    {
        SpaceManager { spaces }
    }

    /// The space of the identity `space_id`.
    pub fn get_space(&self, space_id: u128) -> (space: Option<Space>)
        ensures
            match space {
                Some(s) => first_of(self@, space_id) == Some(s@) && s.id == space_id
                    && self@.contains(s@),
                None => first_of(self@, space_id) is None && forall|i: int|
                    0 <= i < self@.len() ==> (#[trigger] self@[i]).id != space_id,
            },
    {
        proof {
            lemma_first_of(self@, space_id);
        }
        let n = self.spaces.len();
        let mut i: usize = 0;
        assert(self@.skip(0) =~= self@);
        while i < n
            invariant
                n == self.spaces@.len(),
                0 <= i <= n,
                first_of(self@, space_id) == first_of(self@.skip(i as int), space_id),
            decreases n - i,
        {
            let ghost rest = self@.skip(i as int);
            assert(rest.first() == self.spaces@[i as int]@);
            assert(rest.drop_first() =~= self@.skip(i + 1));
            if self.spaces[i].id == space_id {
                return Some(self.spaces[i].clone());
            }
            i = i + 1;
        }
        assert(self@.skip(n as int) =~= Seq::<SpaceView>::empty());
        None
    }

    /// Whether the list holds a space of the identity `space_id`.
    pub fn contains(&self, space_id: u128) -> (found: bool)
        ensures
            found == first_of(self@, space_id) is Some,
    {
        self.get_space(space_id).is_some()
    }

    /// The spaces of the user `user_id`, in the order of the list.
    pub fn get_all_spaces_for_user(&self, user_id: u128) -> (spaces: Vec<SpaceWrapped>)
        ensures
            wrapped_view(spaces@) == owned_by(self@, user_id),
    {
        let n = self.spaces.len();
        let mut result: Vec<SpaceWrapped> = Vec::new();
        let mut i: usize = 0;
        assert(self@.take(0) =~= Seq::<SpaceView>::empty());
        assert(wrapped_view(result@) =~= Seq::<SpaceWrappedView>::empty());
        while i < n
            invariant
                n == self.spaces@.len(),
                0 <= i <= n,
                wrapped_view(result@) == owned_by(self@.take(i as int), user_id),
            decreases n - i,
        {
            let ghost before = wrapped_view(result@);
            assert(self@.take(i + 1).drop_last() =~= self@.take(i as int));
            assert(self@.take(i + 1).last() == self.spaces@[i as int]@);
            if self.spaces[i].owner_id == user_id {
                let wrapped = SpaceWrapped {
                    id: self.spaces[i].id,
                    meta: self.spaces[i].meta.clone(),
                };
                result.push(wrapped);
                assert(wrapped_view(result@) =~= before.push(wrapped@));
            }
            i = i + 1;
        }
        assert(self@.take(n as int) =~= self@);
        result
    }

    /// Adds a space at the end of the list.
    pub fn insert(&mut self, space: Space)
        ensures
            final(self)@ == old(self)@.push(space@),
    {
        self.spaces.push(space);
        assert(self@ =~= old(self)@.push(space@));
    }

    fn retain_others(&mut self, space_id: u128)
        ensures
            final(self)@ == without(old(self)@, space_id),
    {
        let n = self.spaces.len();
        let mut kept: Vec<Space> = Vec::new();
        let mut i: usize = 0;
        assert(self@.take(0) =~= Seq::<SpaceView>::empty());
        assert(spaces_view(kept@) =~= Seq::<SpaceView>::empty());
        while i < n
            invariant
                n == self.spaces@.len(),
                0 <= i <= n,
                spaces_view(kept@) == without(self@.take(i as int), space_id),
            decreases n - i,
        {
            let ghost before = spaces_view(kept@);
            assert(self@.take(i + 1).drop_last() =~= self@.take(i as int));
            assert(self@.take(i + 1).last() == self.spaces@[i as int]@);
            if self.spaces[i].id != space_id {
                let copy = self.spaces[i].clone();
                kept.push(copy);
                assert(spaces_view(kept@) =~= before.push(copy@));
            }
            i = i + 1;
        }
        assert(self@.take(n as int) =~= self@);
        self.spaces = kept;
    }

    /// Puts the space as the store holds it now in the place of the one in
    /// the list: the old one leaves the list, the new one is added at the
    /// end. Refused where the list holds no space of that identity.
    pub fn sync_space_from_db(&mut self, space: Space) -> (r: Result<(), SpaceError>)
        ensures
            match r {
                Ok(_) => first_of(old(self)@, space.id) is Some && final(self)@ == without(
                    old(self)@,
                    space.id,
                ).push(space@),
                Err(e) => first_of(old(self)@, space.id) is None && final(self)@ == old(self)@,
            },
    {
        if !self.contains(space.id) {
            return Err(SpaceError::SpaceNotFound);
        }
        self.retain_others(space.id);
        self.insert(space);
        Ok(())
    }

    /// Takes the space `space_id` off the list. Refused where the list
    /// holds no such space.
    pub fn delete_space(&mut self, space_id: u128) -> (r: Result<(), SpaceError>)
        ensures
            match r {
                Ok(_) => first_of(old(self)@, space_id) is Some && final(self)@ == without(
                    old(self)@,
                    space_id,
                ),
                Err(e) => first_of(old(self)@, space_id) is None && final(self)@ == old(self)@,
            },
            first_of(final(self)@, space_id) is None,
    {
        if !self.contains(space_id) {
            return Err(SpaceError::SpaceNotFound);
        }
        self.retain_others(space_id);
        proof {
            lemma_without(old(self)@, space_id);
            lemma_first_of(self@, space_id);
        }
        Ok(())
    }

    /// A new space of the user `owner_id`, added to the list.
    pub fn create_as_user(
        &mut self,
        space_id: u128,
        meta_id: u128,
        owner_id: u128,
        name: String,
        description: String,
    ) -> (space: Space)
        ensures
            space@ == (SpaceView {
                id: space_id,
                owner_id,
                meta: MetaView { id: meta_id, name: name@, description: description@ },
            }),
            final(self)@ == old(self)@.push(space@),
    {
        let space = Space { id: space_id, owner_id, meta: Meta { id: meta_id, name, description } };
        self.insert(space.clone());
        space
    }

    /// The demo space of the user `owner_id`, added to the list.
    pub fn create_demo_for_user(&mut self, space_id: u128, meta_id: u128, owner_id: u128) -> (space:
        Space)
        ensures
            space@ == (SpaceView {
                id: space_id,
                owner_id,
                meta: MetaView {
                    id: meta_id,
                    name: demo_name(),
                    description: demo_description(),
                },
            }),
            final(self)@ == old(self)@.push(space@),
    {
        self.create_as_user(
            space_id,
            meta_id,
            owner_id,
            "CS 229".to_owned(),
            "Demo space for CS 229".to_owned(),
        )
    }
}

} // verus!

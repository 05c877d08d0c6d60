//! The persona of a participant.

use vstd::prelude::*;

verus! {

/// A bot profile containing personal information and conversation examples.
#[derive(Debug, PartialEq)]
pub struct Profile {
    /// Unique, stable identifier, used to address the persona as `@id`.
    pub id: String,
    /// The display name.
    pub name: String,
    /// A brief description of the persona's background, experience, or context.
    pub background: String,
    /// Sample phrases that represent the persona's communication style.
    pub conversation_examples: Vec<String>,
    /// Which backend should speak for this persona.
    pub llm_provider: String,
    /// Which model of that backend.
    pub llm_model: String,
}

/// What a [`Profile`] holds, as plain sequences of characters.
pub struct ProfileView {
    pub id: Seq<char>,
    pub name: Seq<char>,
    pub background: Seq<char>,
    pub conversation_examples: Seq<Seq<char>>,
    pub llm_provider: Seq<char>,
    pub llm_model: Seq<char>,
}

impl View for Profile {
    type V = ProfileView;

    open spec fn view(&self) -> ProfileView {
        ProfileView {
            id: self.id@,
            name: self.name@,
            background: self.background@,
            conversation_examples: self.conversation_examples.deep_view(),
            llm_provider: self.llm_provider@,
            llm_model: self.llm_model@,
        }
    }
}

impl DeepView for Profile {
    type V = ProfileView;

    open spec fn deep_view(&self) -> ProfileView {
        self@
    }
}

impl ProfileView {
    /// The profile in which every field is empty but the id.
    pub open spec fn template(id: Seq<char>) -> ProfileView {
        ProfileView {
            id,
            name: Seq::empty(),
            background: Seq::empty(),
            conversation_examples: Seq::empty(),
            llm_provider: Seq::empty(),
            llm_model: Seq::empty(),
        }
    }
}

impl Default for Profile {
    fn default() -> (profile: Profile)
        ensures
            profile@ == ProfileView::template(Seq::empty()),
    {
        Profile::template(String::new())
    }
}

impl Profile {
    /// The record a new persona starts from: the given id and nothing else.
    pub fn template(id: String) -> (profile: Profile)
        ensures
            profile@ == ProfileView::template(id@),
    {
        let profile = Profile {
            id,
            name: String::new(),
            background: String::new(),
            conversation_examples: Vec::new(),
            llm_provider: String::new(),
            llm_model: String::new(),
        };
        assert(profile.conversation_examples.deep_view() =~= Seq::<Seq<char>>::empty());
        profile
    }
}

} // verus!

//! How the application asks for data: each request marks its list as
//! loading and asks for a fetch, unless a load of that list is under way.
use vstd::prelude::*;
use crate::app_state::{text_with, App, DataRequest, Effect, Fetch};
use crate::models::{CollectionItem, Database, Question, TableInfo};
use crate::strings::decimal;
use crate::ui::LoadState;

verus! {

broadcast use vstd::std_specs::vec::group_vec_axioms;

/// The characters of an optional text.
pub open spec fn opt_view(m: Option<String>) -> Option<Seq<char>> {
    match m {
        Some(t) => Some(t@),
        None => None,
    }
}

impl App {
    /// The state after a load of the questions from `o`: nothing when one is
    /// under way; else the questions are loading, the panel is told, the
    /// status shows `m` when given, and `f` is fetched.
    pub open spec fn load_questions_post(&self, o: &Self, m: Option<Seq<char>>, f: Fetch) -> bool {
        if o.data.questions is Loading {
            self.unchanged(o)
        } else {
            &&& self.data.questions == LoadState::<Vec<Question>>::Loading
            &&& self.content.update_questions_post(&o.content, &LoadState::Loading)
            &&& self.message() == match m {
                Some(t) => t,
                None => o.message(),
            }
            &&& self.effects@ == o.effects@.push(Effect::Fetch(f))
            &&& self.same_app(o)
            &&& self.keeps_data(o, false, true, true, true, true, true, true)
        }
    }

    /// The state after a load of the collections from `o`.
    pub open spec fn load_collections_post(&self, o: &Self) -> bool {
        if o.data.collections is Loading {
            self.unchanged(o)
        } else {
            &&& self.data.collections == LoadState::<Vec<CollectionItem>>::Loading
            &&& self.content.update_collections_post(&o.content, &LoadState::Loading)
            &&& self.message() == "Loading collections..."@
            &&& self.effects@ == o.effects@.push(Effect::Fetch(Fetch::Collections))
            &&& self.same_app(o)
            &&& self.keeps_data(o, true, false, true, true, true, true, true)
        }
    }

    /// The state after a load of the databases from `o`.
    pub open spec fn load_databases_post(&self, o: &Self) -> bool {
        if o.data.databases is Loading {
            self.unchanged(o)
        } else {
            &&& self.data.databases == LoadState::<Vec<Database>>::Loading
            &&& self.content.update_databases_post(&o.content, &LoadState::Loading)
            &&& self.message() == "Loading databases..."@
            &&& self.effects@ == o.effects@.push(Effect::Fetch(Fetch::Databases))
            &&& self.same_app(o)
            &&& self.keeps_data(o, true, true, false, true, true, true, true)
        }
    }

    /// The state after a load of the schemas of database `database_id`.
    pub open spec fn load_schemas_post(&self, o: &Self, database_id: u32) -> bool {
        if o.data.schemas is Loading {
            self.unchanged(o)
        } else {
            &&& self.data.schemas == LoadState::<Vec<String>>::Loading
            &&& self.content.update_schemas_post(&o.content, &LoadState::Loading)
            &&& self.message() == "Loading schemas..."@
            &&& self.effects@ == o.effects@.push(Effect::Fetch(Fetch::Schemas { database_id }))
            &&& self.same_app(o)
            &&& self.keeps_data(o, true, true, true, false, true, true, true)
        }
    }

    /// The state after a load of the tables of a schema.
    pub open spec fn load_tables_post(&self, o: &Self, database_id: u32, schema: String) -> bool {
        if o.data.tables is Loading {
            self.unchanged(o)
        } else {
            &&& self.data.tables == LoadState::<Vec<TableInfo>>::Loading
            &&& self.content.update_tables_post(&o.content, &LoadState::Loading)
            &&& self.message() == "Loading tables in '"@ + schema@ + "'..."@
            &&& self.effects@ == o.effects@.push(
                Effect::Fetch(Fetch::Tables { database_id, schema }),
            )
            &&& self.same_app(o)
            &&& self.keeps_data(o, true, true, true, true, false, true, true)
        }
    }

    /// The state after the message `m` was shown and `f` asked for.
    pub open spec fn fetch_post(&self, o: &Self, m: Seq<char>, f: Fetch) -> bool {
        &&& self.message() == m
        &&& self.effects@ == o.effects@.push(Effect::Fetch(f))
        &&& self.content == o.content
        &&& self.same_app(o)
        &&& self.same_data(o)
    }

    /// The state after `handle_data_request(request)` from `o`.
    pub open spec fn data_request_post(&self, o: &Self, request: DataRequest) -> bool {
        if !o.has_service {
            self.message_post(o, "Error: Not connected to Metabase"@)
        } else {
            match request {
                DataRequest::Questions => self.load_questions_post(
                    o,
                    Some("Loading questions..."@),
                    Fetch::Questions { search: None },
                ),
                DataRequest::Refresh => self.load_questions_post(
                    o,
                    Some("Loading questions..."@),
                    Fetch::Questions { search: None },
                ),
                DataRequest::SearchQuestions(q) => self.load_questions_post(
                    o,
                    Some("Searching for '"@ + q@ + "'..."@),
                    Fetch::Questions { search: Some(q) },
                ),
                DataRequest::FilterQuestionsByCollection(id) => self.load_questions_post(
                    o,
                    None,
                    Fetch::CollectionQuestions { collection_id: id },
                ),
                DataRequest::Collections => self.load_collections_post(o),
                DataRequest::Databases => self.load_databases_post(o),
                DataRequest::QuestionDetails(id) => self.message_post(
                    o,
                    "Loading question #"@ + decimal(id as nat) + "..."@,
                ),
                DataRequest::Execute(id) => self.message_post(
                    o,
                    "Executing query #"@ + decimal(id as nat) + "..."@,
                ),
                DataRequest::Schemas(id) => self.load_schemas_post(o, id),
                DataRequest::Tables(id, schema) => self.load_tables_post(o, id, schema),
                DataRequest::TablePreview(db, table) => self.fetch_post(
                    o,
                    "Loading table preview..."@,
                    Fetch::TablePreview { database_id: db, table_id: table },
                ),
            }
        }
    }

    fn load_questions(&mut self, m: Option<String>, f: Fetch)
        requires
            old(self).wf(),
        ensures
            final(self).wf(),
            final(self).load_questions_post(old(self), opt_view(m), f),
    {
        if matches!(self.data.questions, LoadState::Loading) {
            return;
        }
        self.data.questions = LoadState::Loading;
        self.content.update_questions(&self.data.questions);
        if let Some(t) = m {
            self.status_bar.set_message(t);
        }
        self.effects.push(Effect::Fetch(f));
    }

    fn load_collections(&mut self)
        requires
            old(self).wf(),
        ensures
            final(self).wf(),
            final(self).load_collections_post(old(self)),
    {
        if matches!(self.data.collections, LoadState::Loading) {
            return;
        }
        self.data.collections = LoadState::Loading;
        self.content.update_collections(&self.data.collections);
        proof {
            reveal_strlit("Loading collections...");
        }
        self.status_bar.set_message("Loading collections...".to_string());
        self.effects.push(Effect::Fetch(Fetch::Collections));
    }

    fn load_databases(&mut self)
        requires
            old(self).wf(),
        ensures
            final(self).wf(),
            final(self).load_databases_post(old(self)),
    {
        if matches!(self.data.databases, LoadState::Loading) {
            return;
        }
        self.data.databases = LoadState::Loading;
        self.content.update_databases(&self.data.databases);
        proof {
            reveal_strlit("Loading databases...");
        }
        self.status_bar.set_message("Loading databases...".to_string());
        self.effects.push(Effect::Fetch(Fetch::Databases));
    }

    fn load_schemas(&mut self, database_id: u32)
        requires
            old(self).wf(),
        ensures
            final(self).wf(),
            final(self).load_schemas_post(old(self), database_id),
    {
        if matches!(self.data.schemas, LoadState::Loading) {
            return;
        }
        self.data.schemas = LoadState::Loading;
        self.content.update_schemas(&self.data.schemas);
        proof {
            reveal_strlit("Loading schemas...");
        }
        self.status_bar.set_message("Loading schemas...".to_string());
        self.effects.push(Effect::Fetch(Fetch::Schemas { database_id }));
    }

    fn load_tables(&mut self, database_id: u32, schema: String)
        requires
            old(self).wf(),
        ensures
            final(self).wf(),
            final(self).load_tables_post(old(self), database_id, schema),
    {
        if matches!(self.data.tables, LoadState::Loading) {
            return;
        }
        self.data.tables = LoadState::Loading;
        self.content.update_tables(&self.data.tables);
        let m = text_with("Loading tables in '", schema.as_str(), "'...");
        self.status_bar.set_message(m);
        self.effects.push(Effect::Fetch(Fetch::Tables { database_id, schema }));
    }

    /// Ask for the data of `request`: the list it fills is marked loading,
    /// the panel is told, and the fetch is asked for; a request for a list
    /// that is loading already is dropped. Without a server only an error
    /// message is shown.
    pub fn handle_data_request(&mut self, request: DataRequest)
        requires
            old(self).wf(),
        ensures
            final(self).wf(),
            final(self).data_request_post(old(self), request),
    {
        proof {
            reveal_strlit("Error: Not connected to Metabase");
            reveal_strlit("Loading questions...");
            reveal_strlit("Searching for '");
            reveal_strlit("'...");
            reveal_strlit("Loading question #");
            reveal_strlit("Executing query #");
            reveal_strlit("...");
            reveal_strlit("Loading table preview...");
        }
        if !self.has_service {
            self.status_bar.set_message("Error: Not connected to Metabase".to_string());
            return;
        }
        match request {
            DataRequest::Questions => {
                self.load_questions(
                    Some("Loading questions...".to_string()),
                    Fetch::Questions { search: None },
                );
            },
            DataRequest::Refresh => {
                self.load_questions(
                    Some("Loading questions...".to_string()),
                    Fetch::Questions { search: None },
                );
            },
            DataRequest::SearchQuestions(query) => {
                let m = text_with("Searching for '", query.as_str(), "'...");
                self.load_questions(Some(m), Fetch::Questions { search: Some(query) });
            },
            DataRequest::FilterQuestionsByCollection(collection_id) => {
                self.load_questions(None, Fetch::CollectionQuestions { collection_id });
            },
            DataRequest::Collections => {
                self.load_collections();
            },
            DataRequest::Databases => {
                self.load_databases();
            },
            DataRequest::QuestionDetails(id) => {
                let m = crate::app_state::text_with_count("Loading question #", id as u64, "...");
                self.status_bar.set_message(m);
            },
            DataRequest::Execute(id) => {
                let m = crate::app_state::text_with_count("Executing query #", id as u64, "...");
                self.status_bar.set_message(m);
            },
            DataRequest::Schemas(database_id) => {
                self.load_schemas(database_id);
            },
            DataRequest::Tables(database_id, schema) => {
                self.load_tables(database_id, schema);
            },
            DataRequest::TablePreview(database_id, table_id) => {
                self.status_bar.set_message("Loading table preview...".to_string());
                self.effects.push(Effect::Fetch(Fetch::TablePreview { database_id, table_id }));
            },
        }
    }
}

} // verus!

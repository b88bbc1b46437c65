//! What the application does with each action: loaded data is kept and
//! shown, failures are reported, and drill-downs move through the views.
use vstd::prelude::*;
use crate::app_state::{
    tab_after, tab_before, target_view, text_with, text_with_count, user_name, AppAction,
    ConnectionStatus, ContentTarget, DataRequest, Effect, App,
};
use crate::content::{ContentView, QueryResultData};
use crate::content_nav::{database_context, schema_context};
use crate::dup::Duplicate;
use crate::models::{CollectionItem, CurrentUser, Database, Question, TableInfo};
use crate::strings::decimal;
use crate::ui::LoadState;

verus! {

broadcast use vstd::std_specs::vec::group_vec_axioms;

/// Whether an action's data fits the limits of the result view.
pub open spec fn action_fits(action: AppAction) -> bool {
    match action {
        AppAction::QueryResultLoaded(_, d) => d.rows@.len() <= usize::MAX / 4,
        AppAction::TablePreviewLoaded(d) => d.rows@.len() <= usize::MAX / 4,
        _ => true,
    }
}

impl App {
    /// Only the quit flag changed, to set.
    pub open spec fn quit_post(&self, o: &Self) -> bool {
        &&& self.should_quit
        &&& self.same_ui(o)
        &&& self.active_tab == o.active_tab
        &&& self.connection_status == o.connection_status
        &&& self.current_request_id == o.current_request_id
        &&& self.same_data(o)
        &&& self.content == o.content
        &&& self.message() == o.message()
        &&& self.effects@ == o.effects@
    }

    /// The view of `target` is shown; nothing else changed.
    pub open spec fn navigate_post(&self, o: &Self, target: ContentTarget) -> bool {
        &&& self.content.set_view_post(&o.content, target_view(target))
        &&& self.same_state(o)
        &&& self.message() == o.message()
    }

    /// Questions were loaded: they are kept, the panel is told, and the
    /// status counts them.
    pub open spec fn questions_loaded_post(&self, o: &Self, qs: Vec<Question>) -> bool {
        &&& self.data.questions == LoadState::Loaded(qs)
        &&& self.content.update_questions_post(&o.content, &LoadState::Loaded(qs))
        &&& self.message() == "Loaded "@ + decimal(qs@.len()) + " questions"@
        &&& self.same_app(o)
        &&& self.keeps_data(o, false, true, true, true, true, true, true)
        &&& self.effects@ == o.effects@
    }

    /// Collections were loaded.
    pub open spec fn collections_loaded_post(&self, o: &Self, cs: Vec<CollectionItem>) -> bool {
        &&& self.data.collections == LoadState::Loaded(cs)
        &&& self.content.update_collections_post(&o.content, &LoadState::Loaded(cs))
        &&& self.message() == "Loaded "@ + decimal(cs@.len()) + " collections"@
        &&& self.same_app(o)
        &&& self.keeps_data(o, true, false, true, true, true, true, true)
        &&& self.effects@ == o.effects@
    }

    /// Databases were loaded.
    pub open spec fn databases_loaded_post(&self, o: &Self, ds: Vec<Database>) -> bool {
        &&& self.data.databases == LoadState::Loaded(ds)
        &&& self.content.update_databases_post(&o.content, &LoadState::Loaded(ds))
        &&& self.message() == "Loaded "@ + decimal(ds@.len()) + " databases"@
        &&& self.same_app(o)
        &&& self.keeps_data(o, true, true, false, true, true, true, true)
        &&& self.effects@ == o.effects@
    }

    /// Schemas were loaded.
    pub open spec fn schemas_loaded_post(&self, o: &Self, ss: Vec<String>) -> bool {
        &&& self.data.schemas == LoadState::Loaded(ss)
        &&& self.content.update_schemas_post(&o.content, &LoadState::Loaded(ss))
        &&& self.message() == "Loaded "@ + decimal(ss@.len()) + " schemas"@
        &&& self.same_app(o)
        &&& self.keeps_data(o, true, true, true, false, true, true, true)
        &&& self.effects@ == o.effects@
    }

    /// Tables were loaded.
    pub open spec fn tables_loaded_post(&self, o: &Self, ts: Vec<TableInfo>) -> bool {
        &&& self.data.tables == LoadState::Loaded(ts)
        &&& self.content.update_tables_post(&o.content, &LoadState::Loaded(ts))
        &&& self.message() == "Loaded "@ + decimal(ts@.len()) + " tables"@
        &&& self.same_app(o)
        &&& self.keeps_data(o, true, true, true, true, false, true, true)
        &&& self.effects@ == o.effects@
    }

    /// The server accepted the session of `user`: connected under the
    /// user's name, which the status shows, and the user is kept.
    pub open spec fn auth_validated_post(&self, o: &Self, user: CurrentUser) -> bool {
        &&& (self.connection_status matches ConnectionStatus::Connected(n) && n@ == user_name(
            user,
        ))
        &&& self.message() == "Connected as "@ + user_name(user)
        &&& self.data.current_user == Some(user)
        &&& self.same_ui(o)
        &&& self.should_quit == o.should_quit
        &&& self.active_tab == o.active_tab
        &&& self.current_request_id == o.current_request_id
        &&& self.keeps_data(o, true, true, true, true, true, true, false)
        &&& self.content == o.content
        &&& self.effects@ == o.effects@
    }

    /// The server refused the session with `error`.
    pub open spec fn auth_failed_post(&self, o: &Self, error: String) -> bool {
        &&& self.connection_status == ConnectionStatus::Error(error)
        &&& self.message() == "Auth failed: "@ + error@
        &&& self.same_ui(o)
        &&& self.should_quit == o.should_quit
        &&& self.active_tab == o.active_tab
        &&& self.current_request_id == o.current_request_id
        &&& self.same_data(o)
        &&& self.content == o.content
        &&& self.effects@ == o.effects@
    }

    /// An error is shown: the questions hold it and the status reports it.
    pub open spec fn show_error_post(&self, o: &Self, msg: String) -> bool {
        &&& self.data.questions == LoadState::<Vec<Question>>::Error(msg)
        &&& self.message() == "Error: "@ + msg@
        &&& self.same_app(o)
        &&& self.keeps_data(o, false, true, true, true, true, true, true)
        &&& self.content == o.content
        &&& self.effects@ == o.effects@
    }

    /// An error held by the questions is cleared.
    pub open spec fn clear_error_post(&self, o: &Self) -> bool {
        &&& self.data.questions == if o.data.questions is Error {
            LoadState::<Vec<Question>>::Idle
        } else {
            o.data.questions
        }
        &&& self.same_app(o)
        &&& self.keeps_data(o, false, true, true, true, true, true, true)
        &&& self.content == o.content
        &&& self.message() == o.message()
        &&& self.effects@ == o.effects@
    }

    /// A load for `request` failed with `error`: the list it fills holds
    /// the error (questions, collections, databases), and the status
    /// reports it.
    pub open spec fn load_failed_post(&self, o: &Self, request: DataRequest, error: String) -> bool {
        &&& self.message() == "Error: "@ + error@
        &&& self.same_app(o)
        &&& self.effects@ == o.effects@
        &&& match request {
            DataRequest::Questions => self.questions_failed(o, error),
            DataRequest::Refresh => self.questions_failed(o, error),
            DataRequest::SearchQuestions(_) => self.questions_failed(o, error),
            DataRequest::FilterQuestionsByCollection(_) => self.questions_failed(o, error),
            DataRequest::Collections => {
                &&& self.data.collections == LoadState::<Vec<CollectionItem>>::Error(error)
                &&& self.content.update_collections_post(&o.content, &self.data.collections)
                &&& self.keeps_data(o, true, false, true, true, true, true, true)
            },
            DataRequest::Databases => {
                &&& self.data.databases == LoadState::<Vec<Database>>::Error(error)
                &&& self.content.update_databases_post(&o.content, &self.data.databases)
                &&& self.keeps_data(o, true, true, false, true, true, true, true)
            },
            _ => self.content == o.content && self.same_data(o),
        }
    }

    /// The questions hold `error` and the panel was told.
    pub open spec fn questions_failed(&self, o: &Self, error: String) -> bool {
        &&& self.data.questions == LoadState::<Vec<Question>>::Error(error)
        &&& self.content.update_questions_post(&o.content, &self.data.questions)
        &&& self.keeps_data(o, false, true, true, true, true, true, true)
    }

    /// The result of run `request_id` arrived: when it is the latest run it
    /// is kept and shown, and the status names the question and counts the
    /// rows; an answer to an older run is ignored.
    pub open spec fn query_result_loaded_post(
        &self,
        o: &Self,
        request_id: u64,
        data: QueryResultData,
    ) -> bool {
        if request_id == o.current_request_id {
            &&& self.data.query_result.same(&Some(data))
            &&& self.content.set_query_result_post(&o.content, data)
            &&& self.message() == "Query '"@ + data.question_name@ + "': "@ + decimal(
                data.rows@.len(),
            ) + " rows"@
            &&& self.same_app(o)
            &&& self.keeps_data(o, true, true, true, true, true, false, true)
            &&& self.effects@ == o.effects@
        } else {
            self.unchanged(o)
        }
    }

    /// Run `request_id` failed: reported when it is the latest run.
    pub open spec fn query_failed_post(&self, o: &Self, request_id: u64, error: String) -> bool {
        if request_id == o.current_request_id {
            self.message_post(o, "Query failed: "@ + error@)
        } else {
            self.unchanged(o)
        }
    }

    /// The query result is left for the questions.
    pub open spec fn back_to_questions_app_post(&self, o: &Self) -> bool {
        &&& self.data.query_result is None
        &&& self.content.back_to_questions_post(&o.content)
        &&& self.message() == "Returned to Questions list"@
        &&& self.same_app(o)
        &&& self.keeps_data(o, true, true, true, true, true, false, true)
        &&& self.effects@ == o.effects@
    }

    /// The panel moved as `moved` says, the status shows `m`, and `e` was
    /// asked for.
    pub open spec fn moved_post(&self, o: &Self, moved: bool, m: Seq<char>, e: Effect) -> bool {
        &&& moved
        &&& self.message() == m
        &&& self.effects@ == o.effects@.push(e)
        &&& self.same_app(o)
        &&& self.same_data(o)
    }

    /// The panel moved back as `moved` says and the status shows `m`.
    pub open spec fn back_post(&self, o: &Self, moved: bool, m: Seq<char>) -> bool {
        &&& moved
        &&& self.message() == m
        &&& self.same_state(o)
    }

    /// Drill into a schema of the database in view: nothing without a
    /// database in view.
    pub open spec fn drill_schema_post(&self, o: &Self, schema: String) -> bool {
        match database_context(o.content.view, o.content.navigation_stack@) {
            Some((db, _)) => self.moved_post(
                o,
                self.content.enter_schema_tables_post(&o.content, db, schema),
                "Viewing tables in '"@ + schema@ + "'"@,
                Effect::Send(AppAction::LoadData(DataRequest::Tables(db, schema))),
            ),
            None => self.unchanged(o),
        }
    }

    /// Drill into a table of the schema in view: nothing without a schema
    /// in view.
    pub open spec fn drill_table_post(&self, o: &Self, table_id: u32, name: String) -> bool {
        match schema_context(o.content.view, o.content.navigation_stack@) {
            Some((db, _)) => self.moved_post(
                o,
                self.content.enter_table_preview_post(&o.content, db, table_id, name),
                "Loading preview for '"@ + name@ + "'..."@,
                Effect::Send(AppAction::LoadData(DataRequest::TablePreview(db, table_id))),
            ),
            None => self.unchanged(o),
        }
    }

    /// The rows of a table preview arrived: kept, shown, and counted.
    pub open spec fn table_preview_loaded_post(&self, o: &Self, data: QueryResultData) -> bool {
        &&& self.data.query_result.same(&Some(data))
        &&& self.content.set_table_preview_data_post(&o.content, data)
        &&& self.message() == "Preview: "@ + decimal(data.rows@.len()) + " rows loaded"@
        &&& self.same_app(o)
        &&& self.keeps_data(o, true, true, true, true, true, false, true)
        &&& self.effects@ == o.effects@
    }

    /// The state after `handle_action(action)` from `o`.
    pub open spec fn action_post(&self, o: &Self, action: AppAction) -> bool {
        match action {
            AppAction::Quit => self.quit_post(o),
            AppAction::NextPanel => self.switch_to_tab_post(o, tab_after(o.active_tab)),
            AppAction::PreviousPanel => self.switch_to_tab_post(o, tab_before(o.active_tab)),
            AppAction::Navigate(t) => self.navigate_post(o, t),
            AppAction::LoadData(r) => self.data_request_post(o, r),
            AppAction::ShowError(m) => self.show_error_post(o, m),
            AppAction::ClearError => self.clear_error_post(o),
            AppAction::SetStatus(m) => self.message_post(o, m@),
            AppAction::ClearStatus => self.message_post(o, Seq::empty()),
            AppAction::QuestionsLoaded(qs) => self.questions_loaded_post(o, qs),
            AppAction::CollectionsLoaded(cs) => self.collections_loaded_post(o, cs),
            AppAction::DatabasesLoaded(ds) => self.databases_loaded_post(o, ds),
            AppAction::AuthValidated(u) => self.auth_validated_post(o, u),
            AppAction::LoadFailed(r, e) => self.load_failed_post(o, r, e),
            AppAction::ExecuteQuestion(id) => self.execute_question_post(o, id),
            AppAction::QueryResultLoaded(rid, d) => self.query_result_loaded_post(o, rid, d),
            AppAction::QueryFailed(rid, e) => self.query_failed_post(o, rid, e),
            AppAction::BackToQuestions => self.back_to_questions_app_post(o),
            AppAction::DrillDownCollection(id, name) => self.moved_post(
                o,
                self.content.enter_collection_questions_post(&o.content, id, name),
                "Viewing questions in '"@ + name@ + "'"@,
                Effect::Send(AppAction::LoadData(DataRequest::FilterQuestionsByCollection(id))),
            ),
            AppAction::BackToCollections => self.back_post(
                o,
                self.content.exit_collection_questions_post(&o.content),
                "Returned to Collections list"@,
            ),
            AppAction::DrillDownDatabase(id, name) => self.moved_post(
                o,
                self.content.enter_database_schemas_post(&o.content, id, name),
                "Viewing schemas in '"@ + name@ + "'"@,
                Effect::Send(AppAction::LoadData(DataRequest::Schemas(id))),
            ),
            AppAction::BackToDatabases => self.back_post(
                o,
                self.content.exit_database_schemas_post(&o.content),
                "Returned to Databases list"@,
            ),
            AppAction::DrillDownSchema(s) => self.drill_schema_post(o, s),
            AppAction::BackToSchemas => self.back_post(
                o,
                self.content.exit_schema_tables_post(&o.content),
                "Returned to Schemas list"@,
            ),
            AppAction::DrillDownTable(id, name) => self.drill_table_post(o, id, name),
            AppAction::BackToTables => self.back_post(
                o,
                self.content.exit_table_preview_post(&o.content),
                "Returned to Tables list"@,
            ),
            AppAction::SchemasLoaded(ss) => self.schemas_loaded_post(o, ss),
            AppAction::TablesLoaded(ts) => self.tables_loaded_post(o, ts),
            AppAction::TablePreviewLoaded(d) => self.table_preview_loaded_post(o, d),
        }
    }

    /// Process one action.
    pub fn handle_action(&mut self, action: AppAction)
        requires
            old(self).wf(),
            action_fits(action),
        ensures
            final(self).wf(),
            final(self).action_post(old(self), action),
    {
        proof {
            reveal_strlit("");
            reveal_strlit("Returned to Questions list");
            reveal_strlit("Returned to Collections list");
            reveal_strlit("Returned to Databases list");
            reveal_strlit("Returned to Schemas list");
            reveal_strlit("Returned to Tables list");
            reveal_strlit("Error: ");
        }
        match action {
            AppAction::Quit => {
                self.should_quit = true;
            },
            AppAction::NextPanel => {
                let t = self.active_tab.next();
                self.switch_to_tab(t);
            },
            AppAction::PreviousPanel => {
                let t = self.active_tab.previous();
                self.switch_to_tab(t);
            },
            AppAction::Navigate(target) => {
                let view = match target {
                    ContentTarget::Welcome => ContentView::Welcome,
                    ContentTarget::Questions => ContentView::Questions,
                    ContentTarget::Collections => ContentView::Collections,
                    ContentTarget::Databases => ContentView::Databases,
                };
                self.content.set_view(view);
            },
            AppAction::LoadData(request) => {
                self.handle_data_request(request);
            },
            AppAction::ShowError(msg) => {
                let m = text_with("Error: ", msg.as_str(), "");
                self.data.questions = LoadState::Error(msg);
                self.status_bar.set_message(m);
            },
            AppAction::ClearError => {
                if matches!(self.data.questions, LoadState::Error(_)) {
                    self.data.questions = LoadState::Idle;
                }
            },
            AppAction::SetStatus(msg) => {
                self.status_bar.set_message(msg);
            },
            AppAction::ClearStatus => {
                self.status_bar.set_message(String::new());
            },
            AppAction::QuestionsLoaded(questions) => {
                self.handle_questions_loaded(questions);
            },
            AppAction::CollectionsLoaded(collections) => {
                self.handle_collections_loaded(collections);
            },
            AppAction::DatabasesLoaded(databases) => {
                self.handle_databases_loaded(databases);
            },
            AppAction::AuthValidated(user) => {
                self.handle_auth_validated(user);
            },
            AppAction::LoadFailed(request, error) => {
                self.handle_load_failed(request, error);
            },
            AppAction::ExecuteQuestion(id) => {
                self.execute_question(id);
            },
            AppAction::QueryResultLoaded(request_id, result_data) => {
                self.handle_query_result_loaded(request_id, result_data);
            },
            AppAction::QueryFailed(request_id, error) => {
                if request_id == self.current_request_id {
                    let m = text_with("Query failed: ", error.as_str(), "");
                    proof {
                        reveal_strlit("Query failed: ");
                    }
                    self.status_bar.set_message(m);
                }
            },
            AppAction::BackToQuestions => {
                self.data.query_result = None;
                self.content.back_to_questions();
                self.status_bar.set_message("Returned to Questions list".to_string());
            },
            AppAction::DrillDownCollection(collection_id, collection_name) => {
                let m = text_with("Viewing questions in '", collection_name.as_str(), "'");
                proof {
                    reveal_strlit("Viewing questions in '");
                    reveal_strlit("'");
                }
                self.content.enter_collection_questions(collection_id, collection_name);
                self.status_bar.set_message(m);
                self.effects.push(
                    Effect::Send(
                        AppAction::LoadData(DataRequest::FilterQuestionsByCollection(collection_id)),
                    ),
                );
            },
            AppAction::BackToCollections => {
                self.content.exit_collection_questions();
                self.status_bar.set_message("Returned to Collections list".to_string());
            },
            AppAction::DrillDownDatabase(database_id, database_name) => {
                let m = text_with("Viewing schemas in '", database_name.as_str(), "'");
                proof {
                    reveal_strlit("Viewing schemas in '");
                    reveal_strlit("'");
                }
                self.content.enter_database_schemas(database_id, database_name);
                self.status_bar.set_message(m);
                self.effects.push(
                    Effect::Send(AppAction::LoadData(DataRequest::Schemas(database_id))),
                );
            },
            AppAction::BackToDatabases => {
                self.content.exit_database_schemas();
                self.status_bar.set_message("Returned to Databases list".to_string());
            },
            AppAction::DrillDownSchema(schema_name) => {
                self.handle_drill_down_schema(schema_name);
            },
            AppAction::BackToSchemas => {
                self.content.exit_schema_tables();
                self.status_bar.set_message("Returned to Schemas list".to_string());
            },
            AppAction::DrillDownTable(table_id, table_name) => {
                self.handle_drill_down_table(table_id, table_name);
            },
            AppAction::BackToTables => {
                self.content.exit_table_preview();
                self.status_bar.set_message("Returned to Tables list".to_string());
            },
            AppAction::SchemasLoaded(schemas) => {
                let count = schemas.len();
                self.data.schemas = LoadState::Loaded(schemas);
                self.content.update_schemas(&self.data.schemas);
                proof {
                    reveal_strlit("Loaded ");
                    reveal_strlit(" schemas");
                }
                self.status_bar.set_message(text_with_count("Loaded ", count as u64, " schemas"));
            },
            AppAction::TablesLoaded(tables) => {
                let count = tables.len();
                self.data.tables = LoadState::Loaded(tables);
                self.content.update_tables(&self.data.tables);
                proof {
                    reveal_strlit("Loaded ");
                    reveal_strlit(" tables");
                }
                self.status_bar.set_message(text_with_count("Loaded ", count as u64, " tables"));
            },
            AppAction::TablePreviewLoaded(data) => {
                self.handle_table_preview_loaded(data);
            },
        }
    }

    fn handle_questions_loaded(&mut self, questions: Vec<Question>)
        requires
            old(self).wf(),
        ensures
            final(self).wf(),
            final(self).questions_loaded_post(old(self), questions),
    {
        let count = questions.len();
        self.data.questions = LoadState::Loaded(questions);
        self.content.update_questions(&self.data.questions);
        proof {
            reveal_strlit("Loaded ");
            reveal_strlit(" questions");
        }
        self.status_bar.set_message(text_with_count("Loaded ", count as u64, " questions"));
    }

    fn handle_collections_loaded(&mut self, collections: Vec<CollectionItem>)
        requires
            old(self).wf(),
        ensures
            final(self).wf(),
            final(self).collections_loaded_post(old(self), collections),
    {
        let count = collections.len();
        self.data.collections = LoadState::Loaded(collections);
        self.content.update_collections(&self.data.collections);
        proof {
            reveal_strlit("Loaded ");
            reveal_strlit(" collections");
        }
        self.status_bar.set_message(text_with_count("Loaded ", count as u64, " collections"));
    }

    fn handle_databases_loaded(&mut self, databases: Vec<Database>)
        requires
            old(self).wf(),
        ensures
            final(self).wf(),
            final(self).databases_loaded_post(old(self), databases),
    {
        let count = databases.len();
        self.data.databases = LoadState::Loaded(databases);
        self.content.update_databases(&self.data.databases);
        proof {
            reveal_strlit("Loaded ");
            reveal_strlit(" databases");
        }
        self.status_bar.set_message(text_with_count("Loaded ", count as u64, " databases"));
    }

    fn handle_auth_validated(&mut self, user: CurrentUser)
        requires
            old(self).wf(),
        ensures
            final(self).wf(),
            final(self).auth_validated_post(old(self), user),
    {
        let name = match &user.common_name {
            Some(n) => n.clone(),
            None => match &user.first_name {
                Some(n) => n.clone(),
                None => user.email.clone(),
            },
        };
        let m = text_with("Connected as ", name.as_str(), "");
        proof {
            reveal_strlit("Connected as ");
            reveal_strlit("");
        }
        self.connection_status = ConnectionStatus::Connected(name);
        self.status_bar.set_message(m);
        self.data.current_user = Some(user);
    }

    /// The server refused the session: the connection holds the error and
    /// the status reports it.
    pub fn handle_auth_failed(&mut self, error: String)
        requires
            old(self).wf(),
        ensures
            final(self).wf(),
            final(self).auth_failed_post(old(self), error),
    {
        let m = text_with("Auth failed: ", error.as_str(), "");
        proof {
            reveal_strlit("Auth failed: ");
            reveal_strlit("");
        }
        self.connection_status = ConnectionStatus::Error(error);
        self.status_bar.set_message(m);
    }

    fn handle_load_failed(&mut self, request: DataRequest, error: String)
        requires
            old(self).wf(),
        ensures
            final(self).wf(),
            final(self).load_failed_post(old(self), request, error),
    {
        let m = text_with("Error: ", error.as_str(), "");
        proof {
            reveal_strlit("Error: ");
            reveal_strlit("");
        }
        match request {
            DataRequest::Questions | DataRequest::Refresh | DataRequest::SearchQuestions(_)
            | DataRequest::FilterQuestionsByCollection(_) => {
                self.data.questions = LoadState::Error(error);
                self.content.update_questions(&self.data.questions);
            },
            DataRequest::Collections => {
                self.data.collections = LoadState::Error(error);
                self.content.update_collections(&self.data.collections);
            },
            DataRequest::Databases => {
                self.data.databases = LoadState::Error(error);
                self.content.update_databases(&self.data.databases);
            },
            _ => {},
        }
        self.status_bar.set_message(m);
    }

    fn handle_query_result_loaded(&mut self, request_id: u64, result_data: QueryResultData)
        requires
            old(self).wf(),
            result_data.rows@.len() <= usize::MAX / 4,
        ensures
            final(self).wf(),
            final(self).query_result_loaded_post(old(self), request_id, result_data),
    {
        if request_id == self.current_request_id {
            let row_count = result_data.rows.len();
            let mut m = text_with("Query '", result_data.question_name.as_str(), "': ");
            crate::strings::push_decimal(&mut m, row_count as u64);
            crate::strings::append_str(&mut m, " rows");
            proof {
                reveal_strlit("Query '");
                reveal_strlit("': ");
                reveal_strlit(" rows");
            }
            self.data.query_result = Some(result_data.duplicate());
            self.content.set_query_result(result_data);
            self.status_bar.set_message(m);
        }
    }

    fn handle_drill_down_schema(&mut self, schema_name: String)
        requires
            old(self).wf(),
        ensures
            final(self).wf(),
            final(self).drill_schema_post(old(self), schema_name),
    {
        if let Some((database_id, _)) = self.content.get_database_context() {
            let m = text_with("Viewing tables in '", schema_name.as_str(), "'");
            proof {
                reveal_strlit("Viewing tables in '");
                reveal_strlit("'");
            }
            let schema = schema_name.clone();
            self.content.enter_schema_tables(database_id, schema_name);
            self.status_bar.set_message(m);
            self.effects.push(
                Effect::Send(AppAction::LoadData(DataRequest::Tables(database_id, schema))),
            );
        }
    }

    fn handle_drill_down_table(&mut self, table_id: u32, table_name: String)
        requires
            old(self).wf(),
        ensures
            final(self).wf(),
            final(self).drill_table_post(old(self), table_id, table_name),
    {
        if let Some((database_id, _)) = self.content.get_schema_context() {
            let m = text_with("Loading preview for '", table_name.as_str(), "'...");
            proof {
                reveal_strlit("Loading preview for '");
                reveal_strlit("'...");
            }
            self.content.enter_table_preview(database_id, table_id, table_name);
            self.status_bar.set_message(m);
            self.effects.push(
                Effect::Send(AppAction::LoadData(DataRequest::TablePreview(database_id, table_id))),
            );
        }
    }

    fn handle_table_preview_loaded(&mut self, data: QueryResultData)
        requires
            old(self).wf(),
            data.rows@.len() <= usize::MAX / 4,
        ensures
            final(self).wf(),
            final(self).table_preview_loaded_post(old(self), data),
    {
        let row_count = data.rows.len();
        let m = text_with_count("Preview: ", row_count as u64, " rows loaded");
        proof {
            reveal_strlit("Preview: ");
            reveal_strlit(" rows loaded");
        }
        self.data.query_result = Some(data.duplicate());
        self.content.set_table_preview_data(data);
        self.status_bar.set_message(m);
    }
}

} // verus!

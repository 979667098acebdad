//! The state of the data viewer: a query text, a resizable frame around the
//! view of the query's result, and what each event does to them.
//!
//! The viewer's window, its data view and the query engine are not here.
//! [`App::update`] takes an event and decides: it changes the state and
//! names the actions that whoever drives the viewer is to carry out.

use vstd::prelude::*;

verus! {

/// The height that a new data view is given.
pub const DATA_VIEW_HEIGHT: i32 = 600;

/// The room that a column takes beside its own width.
pub const COLUMN_GAP: i32 = 10;

/// The query that a new viewer starts with.
pub open spec fn first_query() -> Seq<char> {
    "SELECT * FROM customer LIMIT 10"@
}

/// The widths that the columns of a new data view are given.
pub open spec fn first_column_widths() -> Seq<i32> {
    seq![200i32, 200i32, 200i32, 500i32, 200i32, 200i32, 200i32]
}

/// The width that columns of the given widths take together, each with the
/// gap beside it.
pub open spec fn total_width(widths: Seq<i32>) -> int
    decreases widths.len(),
{
    if widths.len() == 0 {
        0
    } else {
        total_width(widths.drop_last()) + widths.last() + COLUMN_GAP
    }
}

/// The columns of a new data view take 1770 in all.
pub proof fn lemma_first_total_width()
    ensures
        total_width(first_column_widths()) == 1770,
{
    let w7 = first_column_widths();
    let w6 = w7.drop_last();
    let w5 = w6.drop_last();
    let w4 = w5.drop_last();
    let w3 = w4.drop_last();
    let w2 = w3.drop_last();
    let w1 = w2.drop_last();
    let w0 = w1.drop_last();
    assert(total_width(w0) == 0);
    assert(total_width(w1) == 210);
    assert(total_width(w2) == 420);
    assert(total_width(w3) == 630);
    assert(total_width(w4) == 1140);
    assert(total_width(w5) == 1350);
    assert(total_width(w6) == 1560);
}

/// The edge or corner by which the frame is dragged.
#[derive(Clone, Copy, Debug, PartialEq, Eq, Structural)]
pub enum Grip {
    Right,
    Bottom,
    BottomRight,
}

/// An event of the viewer.
#[derive(Debug, PartialEq, Eq)]
pub enum Msg {
    /// The result of a query has arrived.
    ReceiveDataPane,
    /// A data view was made for a result and was allocated this width and
    /// height.
    DataViewShown(i32, i32),
    /// The data view sent a message of its own.
    DataViewMsg,
    /// The mouse moved to this place of the window.
    MouseMove(i32, i32),
    /// The mouse button was released at this place.
    EndResize(i32, i32),
    /// The mouse button was pressed on a grip at this place.
    StartResize(Grip, i32, i32),
    /// The query text was edited to this.
    SqlChanged(String),
    /// The query is to be run.
    ExecuteSql,
    /// The query failed with this message.
    QueryError(String),
}

/// What a [`Msg`] is, as a mathematical value.
pub enum MsgView {
    ReceiveDataPane,
    DataViewShown(i32, i32),
    DataViewMsg,
    MouseMove(i32, i32),
    EndResize(i32, i32),
    StartResize(Grip, i32, i32),
    SqlChanged(Seq<char>),
    ExecuteSql,
    QueryError(Seq<char>),
}

impl View for Msg {
    type V = MsgView;

    open spec fn view(&self) -> MsgView {
        match self {
            Msg::ReceiveDataPane => MsgView::ReceiveDataPane,
            Msg::DataViewShown(width, height) => MsgView::DataViewShown(*width, *height),
            Msg::DataViewMsg => MsgView::DataViewMsg,
            Msg::MouseMove(x, y) => MsgView::MouseMove(*x, *y),
            Msg::EndResize(x, y) => MsgView::EndResize(*x, *y),
            Msg::StartResize(grip, x, y) => MsgView::StartResize(*grip, *x, *y),
            Msg::SqlChanged(sql) => MsgView::SqlChanged(sql@),
            Msg::ExecuteSql => MsgView::ExecuteSql,
            Msg::QueryError(message) => MsgView::QueryError(message@),
        }
    }
}

/// What the driver of the viewer is to do after an event.
#[derive(Debug, PartialEq, Eq)]
pub enum Action {
    /// Make a data view of the result that arrived, allocate it this width
    /// and height, give its columns these widths, and report the size it
    /// was allocated with [`Msg::DataViewShown`].
    ShowDataView { width: i32, height: i32, column_widths: Vec<i32> },
    /// Allocate the data view this width and height.
    ResizeDataView { width: i32, height: i32 },
    /// Hand the data view's own message to the data view.
    UpdateDataView,
    /// Tell the data view that the mouse moved to this place.
    DataViewMouseMove(i32, i32),
    /// Tell the data view that the resizing of a column ended at this place.
    DataViewColumnEndResize(i32, i32),
    /// Run this query and report its result with [`Msg::ReceiveDataPane`] or
    /// its failure with [`Msg::QueryError`].
    RunQuery(String),
}

/// What an [`Action`] is, as a mathematical value.
pub enum ActionView {
    ShowDataView { width: i32, height: i32, column_widths: Seq<i32> },
    ResizeDataView { width: i32, height: i32 },
    UpdateDataView,
    DataViewMouseMove(i32, i32),
    DataViewColumnEndResize(i32, i32),
    RunQuery(Seq<char>),
}

impl View for Action {
    type V = ActionView;

    open spec fn view(&self) -> ActionView {
        match self {
            Action::ShowDataView { width, height, column_widths } => ActionView::ShowDataView {
                width: *width,
                height: *height,
                column_widths: column_widths@,
            },
            Action::ResizeDataView { width, height } => ActionView::ResizeDataView {
                width: *width,
                height: *height,
            },
            Action::UpdateDataView => ActionView::UpdateDataView,
            Action::DataViewMouseMove(x, y) => ActionView::DataViewMouseMove(*x, *y),
            Action::DataViewColumnEndResize(x, y) => ActionView::DataViewColumnEndResize(*x, *y),
            Action::RunQuery(sql) => ActionView::RunQuery(sql@),
        }
    }
}

impl DeepView for Action {
    type V = ActionView;

    open spec fn deep_view(&self) -> ActionView {
        self@
    }
}

/// The viewer: a frame that can be resized around the data view of a
/// query's result.
#[derive(Debug)]
pub struct App {
    showing: bool,
    active_resize: Option<Grip>,
    sql: String,
    query_error: Option<String>,
    width: i32,
    height: i32,
    start_x: i32,
    start_y: i32,
}

/// What an [`App`] is, as a mathematical value.
pub struct AppView {
    /// Whether a data view is shown.
    pub showing: bool,
    /// The grip by which the frame is being dragged, if it is.
    pub active_resize: Option<Grip>,
    /// The query text.
    pub sql: Seq<char>,
    /// The message of the last query that failed, until a query is run.
    pub query_error: Option<Seq<char>>,
    /// The size of the frame.
    pub width: i32,
    pub height: i32,
    /// Where the mouse was when the drag began or last moved.
    pub start_x: i32,
    pub start_y: i32,
}

impl AppView {
    /// The viewer as it starts: no data view, no drag, the first query, a
    /// frame of 400 by 500.
    pub open spec fn initial() -> AppView {
        AppView {
            showing: false,
            active_resize: None,
            sql: first_query(),
            query_error: None,
            width: 400,
            height: 500,
            start_x: 0,
            start_y: 0,
        }
    }

    /// The viewer with nothing set: no data view, no drag, no query text,
    /// and a frame without extent.
    pub open spec fn blank() -> AppView {
        AppView {
            showing: false,
            active_resize: None,
            sql: Seq::empty(),
            query_error: None,
            width: 0,
            height: 0,
            start_x: 0,
            start_y: 0,
        }
    }

    /// The viewer after the mouse moved to `(x, y)`: while a grip is held,
    /// the frame grows by as much as the mouse moved since the last event,
    /// in the directions that the grip allows, and the place is remembered.
    /// Sizes and places wrap around at the ends of `i32`.
    pub open spec fn dragged(self, x: i32, y: i32) -> AppView {
        match self.active_resize {
            Some(Grip::BottomRight) => AppView {
                width: self.width.wrapping_add(x.wrapping_sub(self.start_x)),
                height: self.height.wrapping_add(y.wrapping_sub(self.start_y)),
                start_x: x,
                start_y: y,
                ..self
            },
            Some(Grip::Right) => AppView {
                width: self.width.wrapping_add(x.wrapping_sub(self.start_x)),
                start_x: x,
                ..self
            },
            Some(Grip::Bottom) => AppView {
                height: self.height.wrapping_add(y.wrapping_sub(self.start_y)),
                start_y: y,
                ..self
            },
            None => self,
        }
    }

    /// The viewer after an event.
    pub open spec fn after(self, msg: MsgView) -> AppView {
        match msg {
            MsgView::ReceiveDataPane => self,
            MsgView::DataViewShown(width, height) => AppView {
                showing: true,
                width,
                height,
                ..self
            },
            MsgView::DataViewMsg => self,
            MsgView::EndResize(_, _) => AppView { active_resize: None, ..self },
            MsgView::MouseMove(x, y) => self.dragged(x, y),
            MsgView::StartResize(grip, x, y) => AppView {
                active_resize: Some(grip),
                start_x: x,
                start_y: y,
                ..self
            },
            MsgView::SqlChanged(sql) => AppView { sql, ..self },
            MsgView::ExecuteSql => AppView { query_error: None, ..self },
            MsgView::QueryError(message) => AppView { query_error: Some(message), ..self },
        }
    }

    /// The action that makes the data view of a result that arrived.
    pub open spec fn show_data_view() -> ActionView {
        ActionView::ShowDataView {
            width: total_width(first_column_widths()) as i32,
            height: DATA_VIEW_HEIGHT,
            column_widths: first_column_widths(),
        }
    }

    /// The actions that an event asks for, in the order in which they are
    /// to be carried out. The data view is told of an event only while one
    /// is shown.
    pub open spec fn actions(self, msg: MsgView) -> Seq<ActionView> {
        match msg {
            MsgView::ReceiveDataPane => seq![AppView::show_data_view()],
            MsgView::DataViewMsg => if self.showing {
                seq![ActionView::UpdateDataView]
            } else {
                Seq::empty()
            },
            MsgView::EndResize(x, y) => if self.showing {
                seq![ActionView::DataViewColumnEndResize(x, y)]
            } else {
                Seq::empty()
            },
            MsgView::MouseMove(x, y) => if !self.showing {
                Seq::empty()
            } else if self.active_resize is Some {
                seq![
                    ActionView::ResizeDataView {
                        width: self.dragged(x, y).width,
                        height: self.dragged(x, y).height,
                    },
                    ActionView::DataViewMouseMove(x, y),
                ]
            } else {
                seq![ActionView::DataViewMouseMove(x, y)]
            },
            MsgView::ExecuteSql => seq![ActionView::RunQuery(self.sql)],
            MsgView::DataViewShown(_, _) => Seq::empty(),
            MsgView::StartResize(_, _, _) => Seq::empty(),
            MsgView::SqlChanged(_) => Seq::empty(),
            MsgView::QueryError(_) => Seq::empty(),
        }
    }
}

impl View for App {
    type V = AppView;

    closed spec fn view(&self) -> AppView {
        AppView {
            showing: self.showing,
            active_resize: self.active_resize,
            sql: self.sql@,
            query_error: match self.query_error {
                Some(message) => Some(message@),
                None => None,
            },
            width: self.width,
            height: self.height,
            start_x: self.start_x,
            start_y: self.start_y,
        }
    }
}

/// The widths that the columns of a new data view are given, and the width
/// that they take together.
fn first_widths() -> (sized: (Vec<i32>, i32))
    ensures
        sized.0@ == first_column_widths(),
        sized.1 == total_width(first_column_widths()),
{
    let mut widths: Vec<i32> = Vec::new();
    widths.push(200);
    widths.push(200);
    widths.push(200);
    widths.push(500);
    widths.push(200);
    widths.push(200);
    widths.push(200);
    assert(widths@ =~= first_column_widths());
    let mut total: i32 = 0;
    let mut k: usize = 0;
    while k < widths.len()
        invariant
            k <= widths.len(),
            widths@ == first_column_widths(),
            total == total_width(widths@.take(k as int)),
            0 <= total <= k * 510,
        decreases widths.len() - k,
    {
        assert(widths@.take(k + 1).drop_last() =~= widths@.take(k as int));
        assert(widths@.take(k + 1).last() == widths@[k as int]);
        assert(0 <= widths@[k as int] <= 500);
        total = total + widths[k] + COLUMN_GAP;
        k += 1;
    }
    assert(widths@.take(k as int) =~= widths@);
    (widths, total)
}

impl Default for App {
    /// The viewer with nothing set.
    fn default() -> (app: App)
        ensures
            app@ == AppView::blank(),
    {
        App {
            showing: false,
            active_resize: None,
            sql: String::new(),
            query_error: None,
            width: 0,
            height: 0,
            start_x: 0,
            start_y: 0,
        }
    }
}

impl App {
    /// The viewer as it starts.
    pub fn new() -> (app: App)
        ensures
            app@ == AppView::initial(),
    {
        App {
            showing: false,
            active_resize: None,
            sql: "SELECT * FROM customer LIMIT 10".to_string(),
            query_error: None,
            width: 400,
            height: 500,
            start_x: 0,
            start_y: 0,
        }
    }

    /// The action that runs the query as it stands.
    pub fn execute_sql(&self) -> (action: Action)
        ensures
            action@ == ActionView::RunQuery(self@.sql),
    {
        Action::RunQuery(self.sql.clone())
    }

    /// Takes an event: changes the state as the event asks, and gives the
    /// actions that are to be carried out, in order.
    pub fn update(&mut self, msg: Msg) -> (actions: Vec<Action>)
        ensures
            final(self)@ == old(self)@.after(msg@),
            actions.deep_view() == old(self)@.actions(msg@),
    {
        let mut actions: Vec<Action> = Vec::new();
        match msg {
            Msg::ReceiveDataPane => {
                let (column_widths, width) = first_widths();
                actions.push(Action::ShowDataView { width, height: DATA_VIEW_HEIGHT, column_widths });
            },
            Msg::DataViewShown(width, height) => {
                self.showing = true;
                self.width = width;
                self.height = height;
            },
            Msg::DataViewMsg => {
                if self.showing {
                    actions.push(Action::UpdateDataView);
                }
            },
            Msg::EndResize(x, y) => {
                self.active_resize = None;
                if self.showing {
                    actions.push(Action::DataViewColumnEndResize(x, y));
                }
            },
            Msg::MouseMove(x, y) => {
                match self.active_resize {
                    Some(grip) => {
                        match grip {
                            Grip::BottomRight => {
                                self.width = self.width.wrapping_add(x.wrapping_sub(self.start_x));
                                self.height = self.height.wrapping_add(
                                    y.wrapping_sub(self.start_y),
                                );
                                self.start_x = x;
                                self.start_y = y;
                            },
                            Grip::Right => {
                                self.width = self.width.wrapping_add(x.wrapping_sub(self.start_x));
                                self.start_x = x;
                            },
                            Grip::Bottom => {
                                self.height = self.height.wrapping_add(
                                    y.wrapping_sub(self.start_y),
                                );
                                self.start_y = y;
                            },
                        }
                        if self.showing {
                            actions.push(
                                Action::ResizeDataView { width: self.width, height: self.height },
                            );
                        }
                    },
                    None => {},
                }
                if self.showing {
                    actions.push(Action::DataViewMouseMove(x, y));
                }
            },
            Msg::StartResize(grip, x, y) => {
                self.active_resize = Some(grip);
                self.start_x = x;
                self.start_y = y;
            },
            Msg::SqlChanged(sql) => {
                self.sql = sql;
            },
            Msg::ExecuteSql => {
                self.query_error = None;
                actions.push(self.execute_sql());
            },
            Msg::QueryError(message) => {
                self.query_error = Some(message);
            },
        }
        assert(actions.deep_view() =~= old(self)@.actions(msg@));
        actions
    }

    /// Whether a data view is shown.
    pub fn has_data_view(&self) -> (showing: bool)
        ensures
            showing == self@.showing,
    {
        self.showing
    }

    /// The grip by which the frame is being dragged, if it is.
    pub fn active_resize(&self) -> (grip: Option<Grip>)
        ensures
            grip == self@.active_resize,
    {
        self.active_resize
    }

    /// The query text.
    pub fn sql(&self) -> (sql: &str)
        ensures
            sql@ == self@.sql,
    {
        self.sql.as_str()
    }

    /// The message of the last query that failed, until a query is run.
    pub fn query_error(&self) -> (message: Option<&str>)
        ensures
            message is Some == self@.query_error is Some,
            message matches Some(text) ==> text@ == self@.query_error.unwrap(),
    {
        match &self.query_error {
            Some(message) => Some(message.as_str()),
            None => None,
        }
    }

    /// The width and the height of the frame.
    pub fn size(&self) -> (size: (i32, i32))
        ensures
            size == (self@.width, self@.height),
    {
        (self.width, self.height)
    }

    /// Where the mouse was when the drag began or last moved.
    pub fn drag_start(&self) -> (start: (i32, i32))
        ensures
            start == (self@.start_x, self@.start_y),
    {
        (self.start_x, self.start_y)
    }
}

} // verus!

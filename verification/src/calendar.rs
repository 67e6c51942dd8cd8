//! Month calendar: navigation, keyboard focus, date selection, hit
//! testing and event markers.

use vstd::prelude::*;

use crate::color::Color;
use crate::date::{
    lemma_ordinal_injective, days_in_month, first_weekday, is_valid_date, lemma_ordinal_bounds, lemma_ordinal_next_month,
    lemma_ordinal_next_year, max_ordinal, ordinal, spec_days_in_month, spec_first_weekday,
    year_in_range, Date, MAX_YEAR, MIN_YEAR,
};
use crate::event::{EventResult, KeyCode};
use crate::geometry::{saturate, Point, Rect, Size};

verus! {

/// Height of the title row above the weekday grid.
pub const HEADER_HEIGHT: u32 = 40;
/// Side of a date cell when none is chosen.
pub const DEFAULT_CELL_SIZE: u32 = 40;
/// Smallest side a date cell may have.
pub const MIN_CELL_SIZE: u32 = 20;
/// Most event markers drawn inside one date cell.
pub const MAX_VISIBLE_EVENT_MARKERS: usize = 3;
/// Columns of the date grid, one per weekday.
pub const GRID_COLUMNS: u32 = 7;
/// Rows of the date grid.
pub const GRID_ROWS: u32 = 6;

/// Context handed to a custom date cell.
#[derive(Debug, Clone, Copy, PartialEq, Eq, Structural)]
pub struct CalendarCellInfo {
    /// The cell shows today's date.
    pub is_today: bool,
    /// The cell shows the selected date.
    pub is_selected: bool,
    /// The cell belongs to the displayed month.
    pub is_current_month: bool,
}

/// A date cell handed to the custom cell factory.
#[derive(Debug, Clone, Copy, PartialEq, Eq, Structural)]
pub struct CalendarCellEntry {
    /// Date of the cell.
    pub date: Date,
    /// What the cell shows.
    pub info: CalendarCellInfo,
    /// Rebuild counter of the calendar when the entry was made.
    pub factory_generation: u64,
}

/// The entry of `day` in the displayed month.
pub open spec fn cell_entry(m: CalendarModel, today: Date, day: int) -> CalendarCellEntry {
    let date = Date { year: m.year as i32, month: m.month as usize, day: day as usize };
    CalendarCellEntry {
        date,
        info: CalendarCellInfo {
            is_today: date == today,
            is_selected: m.selected == Some(date),
            is_current_month: true,
        },
        factory_generation: m.factory_generation as u64,
    }
}

/// An event marker drawn in a date cell.
#[derive(Debug, Clone)]
pub struct CalendarEvent {
    /// Date the marker belongs to.
    pub date: Date,
    /// Title shown for the event.
    pub title: String,
    /// Marker color.
    pub color: Color,
}

impl CalendarEvent {
    /// Creates an event marker for `date`.
    pub fn new(date: Date, title: &str, color: Color) -> (e: CalendarEvent)
        ensures e.date == date, e.title@ == title@, e.color == color,
    {
        CalendarEvent { date, title: title.to_owned(), color }
    }
}

/// Events of one day: how many there are and the first few of them.
#[derive(Debug, Clone, Copy, PartialEq, Eq)]
pub struct DayEventBucket {
    /// Number of events on the day.
    pub count: usize,
    /// Number of events that get a marker.
    pub visible_count: usize,
    /// Indices into the event list of the events with a marker, in list order.
    pub visible_indices: [usize; 3],
}

/// Limits a marker count to what a cell can show.
pub fn calendar_event_marker_limit(limit: usize) -> (r: usize)
    ensures r == if limit > MAX_VISIBLE_EVENT_MARKERS { MAX_VISIBLE_EVENT_MARKERS } else { limit },
{
    if limit > MAX_VISIBLE_EVENT_MARKERS { MAX_VISIBLE_EVENT_MARKERS } else { limit }
}

/// Clamps an integer into `[lo, hi]`.
pub open spec fn clamp_int(value: int, lo: int, hi: int) -> int {
    if value < lo { lo } else if value > hi { hi } else { value }
}

/// Months counted from January of year 1 (index 0).
pub open spec fn month_index(year: int, month: int) -> int {
    (year - 1) * 12 + month - 1
}

/// Index of December 9999, the last month a calendar shows.
pub open spec fn max_month_index() -> int {
    (MAX_YEAR - MIN_YEAR + 1) * 12 - 1
}

/// Year of a month index.
pub open spec fn index_year(index: int) -> int {
    MIN_YEAR + index / 12
}

/// Month (1 to 12) of a month index.
pub open spec fn index_month(index: int) -> int {
    index % 12 + 1
}

/// A year brought into the range a calendar shows.
pub open spec fn normalized_year(year: int) -> int {
    clamp_int(year, MIN_YEAR as int, MAX_YEAR as int)
}

/// Indices of the events dated `year`-`month`-`day` among the first `n` events, in order.
pub open spec fn matching_events(dates: Seq<Date>, year: int, month: int, day: int, n: int) -> Seq<usize>
    decreases n,
{
    if n <= 0 {
        Seq::empty()
    } else {
        let rest = matching_events(dates, year, month, day, n - 1);
        let d = dates[n - 1];
        if d.year == year && d.month == month && d.day == day {
            rest.push((n - 1) as usize)
        } else {
            rest
        }
    }
}

/// Dates of an event list.
pub open spec fn event_dates(events: Seq<CalendarEvent>) -> Seq<Date> {
    events.map_values(|e: CalendarEvent| e.date)
}

/// The bucket of one day describes exactly the events on that day.
pub open spec fn bucket_describes(bucket: DayEventBucket, matches: Seq<usize>) -> bool {
    &&& bucket.count == matches.len()
    &&& bucket.visible_count == if matches.len() > 3 { 3 } else { matches.len() }
    &&& forall|k: int| 0 <= k < bucket.visible_count ==> bucket.visible_indices@[k] == matches[k]
}

/// The state of a calendar as plain values.
pub struct CalendarModel {
    /// Displayed year.
    pub year: int,
    /// Displayed month.
    pub month: int,
    /// Selected date, if any.
    pub selected: Option<Date>,
    /// Value of the bound date state in controlled mode.
    pub binding: Option<Date>,
    /// Day of the displayed month under keyboard focus.
    pub focused_day: int,
    /// Side of a date cell.
    pub cell_size: int,
    /// Navigation moves by whole years.
    pub year_jump: bool,
    /// Event markers.
    pub events: Seq<CalendarEvent>,
    /// The calendar has keyboard focus.
    pub focused: bool,
    /// A selection change not yet reported.
    pub pending: Option<Date>,
    /// Date cells are drawn by a caller-supplied factory.
    pub custom_cell: bool,
    /// The custom cells must be laid out again.
    pub layout_requested: bool,
    /// Rebuild counter handed to the custom cell factory.
    pub factory_generation: int,
}

/// Month calendar with navigation, date selection and keyboard focus.
pub struct Calendar {
    year: i32,
    month: usize,
    selected_date: Option<Date>,
    value_binding: Option<Date>,
    focused_day: usize,
    cell_size: u32,
    year_jump: bool,
    events: Vec<CalendarEvent>,
    focused: bool,
    pending_change: Option<Date>,
    custom_cell: bool,
    layout_requested: bool,
    factory_generation: u64,
}

impl View for Calendar {
    type V = CalendarModel;

    closed spec fn view(&self) -> CalendarModel {
        CalendarModel {
            year: self.year as int,
            month: self.month as int,
            selected: self.selected_date,
            binding: self.value_binding,
            focused_day: self.focused_day as int,
            cell_size: self.cell_size as int,
            year_jump: self.year_jump,
            events: self.events@,
            focused: self.focused,
            pending: self.pending_change,
            custom_cell: self.custom_cell,
            layout_requested: self.layout_requested,
            factory_generation: self.factory_generation as int,
        }
    }
}

/// The date under keyboard focus.
pub open spec fn focused_date(m: CalendarModel) -> Date {
    Date { year: m.year as i32, month: m.month as usize, day: m.focused_day as usize }
}

/// The focused day as the signed 32-bit number day arithmetic starts from.
pub open spec fn focused_day_i32(m: CalendarModel) -> int {
    (m.focused_day as i32) as int
}

/// Ordinal day number of the date under keyboard focus; a day past the end of
/// the month counts on into the following months.
pub open spec fn focused_ordinal(m: CalendarModel) -> int {
    ordinal(m.year, m.month, focused_day_i32(m))
}

/// `m` with keyboard focus moved to the date focused in `f`; custom cells are
/// laid out again when the displayed month changes.
pub open spec fn focus_moved(m: CalendarModel, f: CalendarModel) -> CalendarModel {
    CalendarModel {
        year: f.year,
        month: f.month,
        focused_day: f.focused_day,
        layout_requested: m.layout_requested || (m.custom_cell && (f.year != m.year || f.month != m.month)),
        ..m
    }
}

/// The rebuild counter after one more build with custom cells, wrapping at
/// the top of its 64-bit range.
pub open spec fn next_generation(generation: int, custom_cell: bool) -> int {
    if !custom_cell { generation } else if generation == u64::MAX { 0 } else { generation + 1 }
}

/// Month step of the navigation arrows and page keys.
pub open spec fn navigation_step(m: CalendarModel) -> int {
    if m.year_jump { 12 } else { 1 }
}

/// Well-formed calendar state: a displayed month within years 1 to 9999 and
/// a cell no smaller than the minimum.
pub open spec fn calendar_wf(m: CalendarModel) -> bool {
    &&& year_in_range(m.year)
    &&& 1 <= m.month <= 12
    &&& 0 <= m.focused_day <= usize::MAX
    &&& m.cell_size >= MIN_CELL_SIZE
}

/// The state after moving the displayed month by `delta` months.
pub open spec fn shifted_months(m: CalendarModel, delta: int) -> CalendarModel {
    let index = clamp_int(month_index(m.year, m.month) + delta, 0, max_month_index());
    let year = index_year(index);
    let month = index_month(index);
    CalendarModel {
        year,
        month,
        focused_day: clamp_int(m.focused_day, 1, spec_days_in_month(year, month)),
        layout_requested: m.layout_requested || (m.custom_cell && (year != m.year || month != m.month)),
        ..m
    }
}

/// The state after committing the focused date, when it is not disabled.
pub open spec fn committed(m: CalendarModel, disabled: bool) -> CalendarModel {
    let date = focused_date(m);
    if disabled || m.selected == Some(date) {
        m
    } else {
        CalendarModel {
            selected: Some(date),
            binding: if m.binding is Some { Some(date) } else { None },
            pending: Some(date),
            layout_requested: m.layout_requested || m.custom_cell,
            ..m
        }
    }
}

/// A date with its year brought into range.
pub open spec fn normalized_date(date: Date) -> Date {
    Date { year: normalized_year(date.year as int) as i32, ..date }
}

/// A date an application may hand to a calendar: a month from 1 to 12, any
/// year and any day.
pub open spec fn date_accepted(date: Date) -> bool {
    1 <= date.month <= 12
}

/// Bringing a date's year into range once is enough: a second pass changes
/// nothing, and month and day are never altered.
pub proof fn lemma_normalized_date_idempotent(date: Date)
    ensures
        normalized_date(normalized_date(date)) == normalized_date(date),
        normalized_date(date).month == date.month,
        normalized_date(date).day == date.day,
        year_in_range(normalized_date(date).year as int),
{
}

/// The cell of `day` in the displayed month: the grid below the title row,
/// counted from the weekday of the month's first day, seven cells a row.
pub open spec fn spec_cell_rect(m: CalendarModel, day: int) -> Option<Rect> {
    if day < 1 || day > spec_days_in_month(m.year, m.month) {
        None
    } else {
        let slot = spec_first_weekday(m.year, m.month) + day - 1;
        Some(Rect {
            x: ((slot % 7) * m.cell_size) as i32,
            y: (HEADER_HEIGHT + (slot / 7) * m.cell_size) as i32,
            w: m.cell_size as u32,
            h: m.cell_size as u32,
        })
    }
}

/// The grid of the calendar fits 32-bit coordinates.
pub open spec fn grid_fits(m: CalendarModel) -> bool {
    m.cell_size * 7 <= i32::MAX && HEADER_HEIGHT + m.cell_size * 6 <= i32::MAX
}

/// A click on the corner of a day's cell selects that day: cells and hit
/// testing agree.
pub proof fn lemma_cell_rect_hit(m: CalendarModel, day: int)
    requires
        calendar_wf(m),
        grid_fits(m),
        1 <= day <= spec_days_in_month(m.year, m.month),
    ensures
        spec_cell_rect(m, day) matches Some(r) && spec_day_at(m, Point { x: r.x, y: r.y }) == Some(day as usize),
{
    let first = spec_first_weekday(m.year, m.month);
    lemma_first_weekday_range(m.year, m.month);
    let slot = first + day - 1;
    let col = slot % 7;
    let row = slot / 7;
    let cell = m.cell_size;
    assert(0 <= slot <= 6 + 30);
    assert(row <= 5);
    assert(0 <= col * cell <= 6 * cell) by (nonlinear_arith) requires 0 <= col <= 6, cell >= 0;
    assert(0 <= row * cell <= 5 * cell) by (nonlinear_arith) requires 0 <= row <= 5, cell >= 0;
    assert((col * cell) / cell == col) by (nonlinear_arith) requires cell > 0, col >= 0;
    assert((row * cell) / cell == row) by (nonlinear_arith) requires cell > 0, row >= 0;
    assert(row * 7 + col == slot);
}

/// The first weekday of a month is one of the seven weekdays.
proof fn lemma_first_weekday_range(year: int, month: int)
    ensures 0 <= spec_first_weekday(year, month) < 7,
{
}

impl Calendar {
    /// Well-formedness of the calendar state.
    pub open spec fn wf(&self) -> bool {
        calendar_wf(self@)
    }

    /// Creates a calendar showing June 2026 with no selected date.
    pub fn new() -> (c: Calendar)
        ensures
            c.wf(),
            c@.year == 2026,
            c@.month == 6,
            c@.selected is None,
            c@.binding is None,
            c@.focused_day == 1,
            c@.cell_size == DEFAULT_CELL_SIZE,
            !c@.year_jump,
            c@.events.len() == 0,
            !c@.focused,
            c@.pending is None,
            !c@.custom_cell,
            !c@.layout_requested,
            c@.factory_generation == 0,
    {
        Calendar {
            year: 2026,
            month: 6,
            selected_date: None,
            value_binding: None,
            focused_day: 1,
            cell_size: DEFAULT_CELL_SIZE,
            year_jump: false,
            events: Vec::new(),
            focused: false,
            pending_change: None,
            custom_cell: false,
            layout_requested: false,
            factory_generation: 0,
        }
    }

    /// Sets the preferred side of a date cell, raised to the minimum.
    pub fn cell_size(self, s: u32) -> (c: Calendar)
        requires self.wf(),
        ensures
            c.wf(),
            c@ == (CalendarModel {
                cell_size: if s < MIN_CELL_SIZE { MIN_CELL_SIZE as int } else { s as int },
                ..self@
            }),
    {
        let mut c = self;
        c.cell_size = Self::normalize_cell_size(s);
        c
    }

    fn normalize_cell_size(value: u32) -> (r: u32)
        ensures r == if value < MIN_CELL_SIZE { MIN_CELL_SIZE } else { value },
    {
        if value < MIN_CELL_SIZE { MIN_CELL_SIZE } else { value }
    }

    /// Day of the selected date, if a date is selected.
    pub fn selected_day(&self) -> (r: Option<usize>)
        ensures r == match self@.selected {
            Some(d) => Some(d.day),
            None => None::<usize>,
        },
    {
        match self.selected_date {
            Some(d) => Some(d.day),
            None => None,
        }
    }

    /// The selected date, if any.
    pub fn selected_date(&self) -> (r: Option<Date>)
        ensures r == self@.selected,
    {
        self.selected_date
    }

    /// The displayed year and month (1 to 12).
    pub fn displayed_month(&self) -> (r: (i32, usize))
        ensures r.0 == self@.year, r.1 == self@.month,
    {
        (self.year, self.month)
    }

    /// Day under keyboard focus.
    pub fn focused_day(&self) -> (r: usize)
        ensures r == self@.focused_day,
    {
        self.focused_day
    }

    /// Value the bound date state should hold in controlled mode.
    pub fn bound_value(&self) -> (r: Option<Date>)
        ensures r == self@.binding,
    {
        self.value_binding
    }

    /// The date with its year brought into years 1 to 9999; month and day
    /// stay as they are.
    pub fn normalize_date(date: Date) -> (r: Date)
        ensures r == normalized_date(date),
    {
        let year = if date.year < MIN_YEAR {
            MIN_YEAR
        } else if date.year > MAX_YEAR {
            MAX_YEAR
        } else {
            date.year
        };
        Date { year, month: date.month, day: date.day }
    }

    /// Sets the initially selected date and shows its month (uncontrolled mode).
    pub fn default_date(self, date: Date) -> (c: Calendar)
        requires
            self.wf(),
            date_accepted(date),
        ensures
            c.wf(),
            c@ == (CalendarModel {
                year: normalized_year(date.year as int),
                month: date.month as int,
                focused_day: date.day as int,
                selected: Some(normalized_date(date)),
                binding: None,
                ..self@
            }),
    {
        let mut c = self;
        c.value_binding = None;
        let date = Self::normalize_date(date);
        c.year = date.year;
        c.month = date.month;
        c.focused_day = date.day;
        c.selected_date = Some(date);
        c
    }

    /// Sets the initially displayed month, keeping the focused day.
    pub fn default_displayed(self, year: i32, month: usize) -> (c: Calendar)
        requires
            self.wf(),
            1 <= month <= 12,
        ensures
            c.wf(),
            c@ == (CalendarModel {
                year: normalized_year(year as int),
                month: month as int,
                ..self@
            }),
    {
        let mut c = self;
        let date = Self::normalize_date(Date::new(year, month, c.focused_day));
        c.year = date.year;
        c.month = date.month;
        c.focused_day = date.day;
        c
    }

    /// Makes navigation move by whole years instead of months.
    pub fn year_jump(self, v: bool) -> (c: Calendar)
        requires self.wf(),
        ensures c.wf(), c@ == (CalendarModel { year_jump: v, ..self@ }),
    {
        let mut c = self;
        c.year_jump = v;
        c
    }

    /// Sets the event markers.
    pub fn events(self, events: Vec<CalendarEvent>) -> (c: Calendar)
        requires self.wf(),
        ensures c.wf(), c@ == (CalendarModel { events: events@, ..self@ }),
    {
        let mut c = self;
        c.events = events;
        c
    }

    /// Binds the selection to a date state (controlled mode): the calendar shows
    /// and selects the state's date, and writes each user selection back.
    pub fn value(self, state: Date) -> (c: Calendar)
        requires
            self.wf(),
            date_accepted(state),
        ensures
            c.wf(),
            c@ == (CalendarModel {
                binding: Some(state),
                selected: Some(normalized_date(state)),
                year: normalized_year(state.year as int),
                month: state.month as int,
                focused_day: state.day as int,
                ..self@
            }),
    {
        let mut c = self;
        c.value_binding = Some(state);
        let date = Self::normalize_date(state);
        c.selected_date = Some(date);
        c.year = date.year;
        c.month = date.month;
        c.focused_day = date.day;
        c
    }

    /// Takes over the binding of the next declaration: entering controlled mode,
    /// or an outside change of the bound date, shows and selects that date.
    pub fn sync_value_binding(&mut self, next_binding: Option<Date>)
        requires
            old(self).wf(),
            next_binding matches Some(d) ==> date_accepted(d),
        ensures
            final(self).wf(),
            final(self)@ == match next_binding {
                Some(d) => if (old(self)@.binding is None)
                    || old(self)@.selected != Some(normalized_date(d)) {
                    CalendarModel {
                        binding: next_binding,
                        selected: Some(normalized_date(d)),
                        year: normalized_year(d.year as int),
                        month: d.month as int,
                        focused_day: d.day as int,
                        ..old(self)@
                    }
                } else {
                    CalendarModel { binding: next_binding, ..old(self)@ }
                },
                None => CalendarModel { binding: None, ..old(self)@ },
            },
    {
        let entering_controlled = self.value_binding.is_none() && next_binding.is_some();
        self.value_binding = next_binding;
        if let Some(d) = next_binding {
            let date = Self::normalize_date(d);
            if entering_controlled || self.selected_date != Some(date) {
                self.selected_date = Some(date);
                self.year = date.year;
                self.month = date.month;
                self.focused_day = date.day;
            }
        }
    }

    /// Adopts the declared settings of the next build, keeping the user's
    /// navigation and selection unless the bound date changed.
    pub fn sync_from(&mut self, next: Calendar)
        requires
            old(self).wf(),
            next.wf(),
            next@.binding matches Some(d) ==> date_accepted(d),
        ensures
            final(self).wf(),
            final(self)@.cell_size == next@.cell_size,
            final(self)@.year_jump == next@.year_jump,
            final(self)@.events == next@.events,
            final(self)@.binding == next@.binding,
            final(self)@.pending == old(self)@.pending,
            final(self)@.focused == old(self)@.focused,
            final(self)@.custom_cell == next@.custom_cell,
            final(self)@.layout_requested == old(self)@.layout_requested,
            final(self)@.factory_generation
                == next_generation(old(self)@.factory_generation, next@.custom_cell),
            match next@.binding {
                Some(d) => if (old(self)@.binding is None)
                    || old(self)@.selected != Some(normalized_date(d)) {
                    final(self)@.selected == Some(normalized_date(d))
                        && final(self)@.year == normalized_year(d.year as int)
                        && final(self)@.month == d.month
                        && final(self)@.focused_day == d.day
                } else {
                    final(self)@.selected == old(self)@.selected
                        && final(self)@.year == old(self)@.year
                        && final(self)@.month == old(self)@.month
                        && final(self)@.focused_day == old(self)@.focused_day
                },
                None => final(self)@.selected == old(self)@.selected
                    && final(self)@.year == old(self)@.year
                    && final(self)@.month == old(self)@.month
                    && final(self)@.focused_day == old(self)@.focused_day,
            },
    {
        self.cell_size = next.cell_size;
        self.year_jump = next.year_jump;
        self.events = next.events;
        self.custom_cell = next.custom_cell;
        self.sync_value_binding(next.value_binding);
        if self.custom_cell {
            self.factory_generation = if self.factory_generation == u64::MAX {
                0
            } else {
                self.factory_generation + 1
            };
        }
    }

    /// Switches to date cells drawn by a caller-supplied factory.
    pub fn date_cell(self) -> (c: Calendar)
        requires self.wf(),
        ensures c.wf(), c@ == (CalendarModel { custom_cell: true, ..self@ }),
    {
        let mut c = self;
        c.custom_cell = true;
        c
    }

    /// Takes the request to lay the custom cells out again, leaving none.
    pub fn take_layout_request(&mut self) -> (r: bool)
        requires old(self).wf(),
        ensures
            final(self).wf(),
            r == old(self)@.layout_requested,
            final(self)@ == (CalendarModel { layout_requested: false, ..old(self)@ }),
    {
        let r = self.layout_requested;
        self.layout_requested = false;
        r
    }

    /// Size the calendar asks for: seven cells wide, six cells and a title row high.
    pub fn intrinsic_size(&self) -> (s: Size)
        ensures
            s.w == saturate(self@.cell_size * GRID_COLUMNS),
            s.h == saturate(self@.cell_size * GRID_ROWS + HEADER_HEIGHT),
    {
        let cell = self.cell_size as u64;
        assert(cell * 7 <= 7 * 0xffff_ffff && cell * 6 <= 6 * 0xffff_ffff) by (nonlinear_arith)
            requires cell <= 0xffff_ffff;
        let w: u64 = cell * GRID_COLUMNS as u64;
        let h: u64 = cell * GRID_ROWS as u64 + HEADER_HEIGHT as u64;
        Size {
            w: if w > u32::MAX as u64 { u32::MAX } else { w as u32 },
            h: if h > u32::MAX as u64 { u32::MAX } else { h as u32 },
        }
    }

    fn navigation_month_delta(&self) -> (r: i32)
        ensures r == navigation_step(self@),
    {
        if self.year_jump { 12 } else { 1 }
    }

    /// The cell of `day` in the displayed month, if the month has that day.
    pub fn cell_rect(&self, day: usize) -> (r: Option<Rect>)
        requires self.wf(), grid_fits(self@),
        ensures r == spec_cell_rect(self@, day as int),
    {
        if day == 0 || day > days_in_month(self.year, self.month) {
            return None;
        }
        let slot = first_weekday(self.year, self.month) + day - 1;
        let cell = self.cell_size as i64;
        let col = (slot % 7) as i64;
        let row = (slot / 7) as i64;
        assert(0 <= col * cell <= 6 * cell) by (nonlinear_arith) requires 0 <= col <= 6, cell >= 0;
        assert(0 <= row * cell <= 5 * cell) by (nonlinear_arith) requires 0 <= row <= 5, cell >= 0;
        Some(Rect {
            x: (col * cell) as i32,
            y: (HEADER_HEIGHT as i64 + row * cell) as i32,
            w: self.cell_size,
            h: self.cell_size,
        })
    }

    /// Day of the displayed month whose cell holds `pos`, if any.
    pub fn day_at(&self, pos: Point) -> (r: Option<usize>)
        requires self.wf(),
        ensures r == spec_day_at(self@, pos),
    {
        let cell = self.cell_size as i64;
        assert(0 <= cell * 6 <= 6 * 0xffff_ffff) by (nonlinear_arith)
            requires 0 <= cell <= 0xffff_ffff;
        let y = pos.y as i64;
        let top = HEADER_HEIGHT as i64;
        if y < top || y >= top + cell * GRID_ROWS as i64 {
            return None;
        }
        let column: i64 = if pos.x < 0 { 0 } else { pos.x as i64 / cell };
        let row: i64 = (y - top) / cell;
        if column >= 7 || row >= 6 {
            return None;
        }
        let weekday = first_weekday(self.year, self.month) as i64;
        let slot = row * 7 + column;
        if slot < weekday {
            return None;
        }
        let day = slot - weekday + 1;
        if day <= days_in_month(self.year, self.month) as i64 {
            Some(day as usize)
        } else {
            None
        }
    }
}

impl Calendar {
    /// Moves the displayed month by `delta` months within January 1 to December
    /// 9999, keeping the focused day inside the new month.
    fn shift_months(&mut self, delta: i32)
        requires
            old(self).wf(),
        ensures
            final(self).wf(),
            final(self)@ == shifted_months(old(self)@, delta as int),
    {
        let current: i64 = (self.year as i64 - MIN_YEAR as i64) * 12 + self.month as i64 - 1;
        let maximum: i64 = (MAX_YEAR as i64 - MIN_YEAR as i64 + 1) * 12 - 1;
        let raw: i64 = current + delta as i64;
        let shifted: u32 = if raw < 0 { 0 } else if raw > maximum { maximum as u32 } else { raw as u32 };
        let next_year: i32 = MIN_YEAR + (shifted / 12) as i32;
        let next_month: usize = (shifted % 12) as usize + 1;
        let displayed_changed = self.year != next_year || self.month != next_month;
        self.year = next_year;
        self.month = next_month;
        self.clamp_focused_day();
        if displayed_changed && self.custom_cell {
            self.layout_requested = true;
        }
    }

    fn clamp_focused_day(&mut self)
        requires
            year_in_range(old(self)@.year),
            1 <= old(self)@.month <= 12,
            old(self)@.cell_size >= MIN_CELL_SIZE,
        ensures
            final(self).wf(),
            final(self)@ == (CalendarModel {
                focused_day: clamp_int(old(self)@.focused_day, 1,
                    spec_days_in_month(old(self)@.year, old(self)@.month)),
                ..old(self)@
            }),
    {
        let days = days_in_month(self.year, self.month);
        if self.focused_day < 1 {
            self.focused_day = 1;
        } else if self.focused_day > days {
            self.focused_day = days;
        }
    }

    /// Moves keyboard focus by `delta` days, across month and year boundaries,
    /// stopping at 0001-01-01 and 9999-12-31. The focused day, read as a signed
    /// 32-bit number, plus `delta` must fit that type.
    fn shift_focused_day(&mut self, delta: i32)
        requires
            old(self).wf(),
            i32::MIN <= focused_day_i32(old(self)@) + delta <= i32::MAX,
        ensures
            final(self).wf(),
            is_valid_date(final(self)@.year, final(self)@.month, final(self)@.focused_day),
            focused_ordinal(final(self)@)
                == clamp_int(focused_ordinal(old(self)@) + delta, 0, max_ordinal()),
            final(self)@ == focus_moved(old(self)@, final(self)@),
    {
        let mut year: i32 = self.year;
        let mut month: usize = self.month;
        let mut day: i32 = self.focused_day as i32 + delta;
        let ghost target: int = ordinal(year as int, month as int, day as int);
        loop
            invariant_except_break
                year_in_range(year as int),
                1 <= month <= 12,
                ordinal(year as int, month as int, day as int) == target,
            ensures
                year_in_range(year as int),
                is_valid_date(year as int, month as int, day as int),
                ordinal(year as int, month as int, day as int) == clamp_int(target, 0, max_ordinal()),
            decreases if day < 1 {
                month_index(year as int, month as int) + 1
            } else if day > spec_days_in_month(year as int, month as int) {
                max_month_index() - month_index(year as int, month as int) + 1
            } else {
                0
            },
        {
            if day < 1 {
                let current: u32 = (year - MIN_YEAR) as u32 * 12 + (month as u32 - 1);
                if current == 0 {
                    proof {
                        assert(year == 1 && month == 1);
                        assert(target < 0);
                    }
                    day = 1;
                    break;
                }
                let previous: u32 = current - 1;
                let ghost old_year = year as int;
                let ghost old_month = month as int;
                let ghost old_day = day as int;
                year = MIN_YEAR + (previous / 12) as i32;
                month = (previous % 12) as usize + 1;
                proof {
                    if old_month > 1 {
                        vstd::arithmetic::div_mod::lemma_fundamental_div_mod_converse(
                            previous as int, 12, old_year - 1, old_month - 2);
                        lemma_ordinal_next_month(old_year, old_month - 1, old_day);
                    } else {
                        vstd::arithmetic::div_mod::lemma_fundamental_div_mod_converse(
                            previous as int, 12, old_year - 2, 11);
                        lemma_ordinal_next_year(old_year - 1, old_day);
                    }
                }
                day = day + days_in_month(year, month) as i32;
                continue;
            }
            let days: i32 = days_in_month(year, month) as i32;
            if day > days {
                let current: u32 = (year - MIN_YEAR) as u32 * 12 + (month as u32 - 1);
                let maximum: u32 = (MAX_YEAR - MIN_YEAR + 1) as u32 * 12 - 1;
                if current == maximum {
                    proof {
                        assert(year == MAX_YEAR && month == 12);
                        assert(target > max_ordinal());
                    }
                    day = days;
                    break;
                }
                let next: u32 = current + 1;
                let ghost old_year = year as int;
                let ghost old_month = month as int;
                let ghost old_day = day as int;
                day = day - days;
                year = MIN_YEAR + (next / 12) as i32;
                month = (next % 12) as usize + 1;
                proof {
                    if old_month < 12 {
                        vstd::arithmetic::div_mod::lemma_fundamental_div_mod_converse(
                            next as int, 12, old_year - 1, old_month);
                        lemma_ordinal_next_month(old_year, old_month, old_day - days);
                    } else {
                        vstd::arithmetic::div_mod::lemma_fundamental_div_mod_converse(
                            next as int, 12, old_year, 0);
                        lemma_ordinal_next_year(old_year, old_day - days);
                    }
                }
                continue;
            }
            proof {
                lemma_ordinal_bounds(year as int, month as int, day as int);
            }
            break;
        }
        let displayed_changed = self.year != year || self.month != month;
        self.year = year;
        self.month = month;
        self.focused_day = day as usize;
        if displayed_changed && self.custom_cell {
            self.layout_requested = true;
        }
    }

    /// Selects the focused date unless it is disabled; a new selection is
    /// written to the bound state and reported once as a change.
    fn commit_selection(&mut self, disabled: bool)
        requires old(self).wf(),
        ensures
            final(self).wf(),
            final(self)@ == committed(old(self)@, disabled),
    {
        let date = Date::new(self.year, self.month, self.focused_day);
        if disabled {
            return;
        }
        if self.selected_date != Some(date) {
            self.selected_date = Some(date);
            if let Some(state) = self.value_binding {
                if state != date {
                    self.value_binding = Some(date);
                }
            }
            self.pending_change = Some(date);
            if self.custom_cell {
                self.layout_requested = true;
            }
        }
    }

    /// Handles a key press; `focused_disabled` tells whether the date under
    /// keyboard focus is disabled. For an arrow key the focused day, read as a
    /// signed 32-bit number, plus the key's step must fit that type.
    pub fn on_key(&mut self, key: KeyCode, focused_disabled: bool) -> (r: EventResult)
        requires
            old(self).wf(),
            i32::MIN <= focused_day_i32(old(self)@) + key_day_step(key) <= i32::MAX,
        ensures
            final(self).wf(),
            r == if key == KeyCode::Other { EventResult::NotHandled } else { EventResult::Handled },
            key == KeyCode::Home ==> final(self)@ == (CalendarModel { focused_day: 1, ..old(self)@ }),
            key == KeyCode::End ==> final(self)@ == (CalendarModel {
                focused_day: spec_days_in_month(old(self)@.year, old(self)@.month),
                ..old(self)@
            }),
            key == KeyCode::PageUp ==> final(self)@
                == shifted_months(old(self)@, -navigation_step(old(self)@)),
            key == KeyCode::PageDown ==> final(self)@
                == shifted_months(old(self)@, navigation_step(old(self)@)),
            (key == KeyCode::Enter || key == KeyCode::Space) ==> final(self)@
                == committed(old(self)@, focused_disabled),
            key == KeyCode::Other ==> final(self)@ == old(self)@,
            (key == KeyCode::Left || key == KeyCode::Right || key == KeyCode::Up
                || key == KeyCode::Down) ==> {
                &&& is_valid_date(final(self)@.year, final(self)@.month, final(self)@.focused_day)
                &&& focused_ordinal(final(self)@) == clamp_int(
                    focused_ordinal(old(self)@) + key_day_step(key), 0, max_ordinal())
                &&& final(self)@ == focus_moved(old(self)@, final(self)@)
            },
            key == KeyCode::Left ==> focused_ordinal(final(self)@)
                == clamp_int(focused_ordinal(old(self)@) - 1, 0, max_ordinal()),
            key == KeyCode::Right ==> focused_ordinal(final(self)@)
                == clamp_int(focused_ordinal(old(self)@) + 1, 0, max_ordinal()),
            key == KeyCode::Up ==> focused_ordinal(final(self)@)
                == clamp_int(focused_ordinal(old(self)@) - 7, 0, max_ordinal()),
            key == KeyCode::Down ==> focused_ordinal(final(self)@)
                == clamp_int(focused_ordinal(old(self)@) + 7, 0, max_ordinal()),
    {
        match key {
            KeyCode::Left => {
                self.shift_focused_day(-1);
                EventResult::Handled
            },
            KeyCode::Right => {
                self.shift_focused_day(1);
                EventResult::Handled
            },
            KeyCode::Up => {
                self.shift_focused_day(-7);
                EventResult::Handled
            },
            KeyCode::Down => {
                self.shift_focused_day(7);
                EventResult::Handled
            },
            KeyCode::Home => {
                self.focused_day = 1;
                EventResult::Handled
            },
            KeyCode::End => {
                self.focused_day = days_in_month(self.year, self.month);
                EventResult::Handled
            },
            KeyCode::PageUp => {
                let delta = self.navigation_month_delta();
                self.shift_months(-delta);
                EventResult::Handled
            },
            KeyCode::PageDown => {
                let delta = self.navigation_month_delta();
                self.shift_months(delta);
                EventResult::Handled
            },
            KeyCode::Enter | KeyCode::Space => {
                self.commit_selection(focused_disabled);
                EventResult::Handled
            },
            KeyCode::Other => EventResult::NotHandled,
        }
    }

    /// Handles a primary-button press at `pos`: the arrows in the title row move
    /// the displayed month, a date cell takes focus and is selected.
    /// `day_disabled` tells whether the date whose cell holds `pos` is disabled.
    pub fn pointer_down(&mut self, pos: Point, day_disabled: bool) -> (r: EventResult)
        requires old(self).wf(),
        ensures
            final(self).wf(),
            final(self)@ == spec_pointer_down(old(self)@, pos, day_disabled).0,
            r == spec_pointer_down(old(self)@, pos, day_disabled).1,
    {
        let cell = self.cell_size as i64;
        assert(0 <= cell * 7 <= 7 * 0xffff_ffff) by (nonlinear_arith)
            requires 0 <= cell <= 0xffff_ffff;
        let width: i64 = cell * GRID_COLUMNS as i64;
        let header: i64 = HEADER_HEIGHT as i64;
        let x = pos.x as i64;
        let y = pos.y as i64;
        if x < 0 || x >= width || y < 0 {
            return EventResult::NotHandled;
        }
        if y < header {
            if x < header {
                let delta = self.navigation_month_delta();
                self.shift_months(-delta);
                return EventResult::Handled;
            }
            if x >= width - header {
                let delta = self.navigation_month_delta();
                self.shift_months(delta);
                return EventResult::Handled;
            }
            return EventResult::NotHandled;
        }
        match self.day_at(pos) {
            Some(day) => {
                if day_disabled {
                    return EventResult::NotHandled;
                }
                self.focused_day = day;
                self.commit_selection(false);
                EventResult::Handled
            },
            None => EventResult::NotHandled,
        }
    }

    /// Records whether the calendar has keyboard focus.
    pub fn set_focused(&mut self, focused: bool)
        requires old(self).wf(),
        ensures final(self).wf(), final(self)@ == (CalendarModel { focused, ..old(self)@ }),
    {
        self.focused = focused;
    }

    /// Takes the selection change not yet reported, leaving none.
    pub fn take_pending_change(&mut self) -> (r: Option<Date>)
        requires old(self).wf(),
        ensures
            final(self).wf(),
            r == old(self)@.pending,
            final(self)@ == (CalendarModel { pending: None, ..old(self)@ }),
    {
        let r = self.pending_change;
        self.pending_change = None;
        r
    }
}

impl Calendar {
    /// The date cells of the displayed month for the custom cell factory: one
    /// entry per day, marking today's date and the selected date, tagged with
    /// the rebuild counter; none without custom cells.
    pub fn desired_cell_entries(&self, today: Date) -> (r: Vec<CalendarCellEntry>)
        requires self.wf(),
        ensures
            r@.len() == if self@.custom_cell { spec_days_in_month(self@.year, self@.month) } else { 0 },
            forall|i: int| 0 <= i < r@.len() ==> #[trigger] r@[i] == cell_entry(self@, today, i + 1),
    {
        let mut r: Vec<CalendarCellEntry> = Vec::new();
        if !self.custom_cell {
            return r;
        }
        let days = days_in_month(self.year, self.month);
        for day in 1..days + 1
            invariant
                days == spec_days_in_month(self@.year, self@.month),
                days <= 31,
                r@.len() == day - 1,
                forall|i: int| 0 <= i < r@.len() ==> #[trigger] r@[i] == cell_entry(self@, today, i + 1),
        {
            let date = Date::new(self.year, self.month, day);
            let is_today = date.year == today.year && date.month == today.month && date.day == today.day;
            let is_selected = match self.selected_date {
                Some(s) => s.year == date.year && s.month == date.month && s.day == date.day,
                None => false,
            };
            r.push(CalendarCellEntry {
                date,
                info: CalendarCellInfo { is_today, is_selected, is_current_month: true },
                factory_generation: self.factory_generation,
            });
        }
        r
    }
}

impl Calendar {
    /// Sorts the events of the given month into the days 1 to 31 in one pass:
    /// entry `d` counts the events on day `d + 1` and keeps the first three.
    pub fn event_buckets(&self, year: i32, month: usize) -> (r: Vec<DayEventBucket>)
        ensures
            r.len() == 31,
            forall|d: int| 0 <= d < 31 ==> #[trigger] bucket_describes(r[d],
                matching_events(event_dates(self@.events), year as int, month as int, d + 1,
                    self@.events.len() as int)),
    {
        let ghost dates = event_dates(self@.events);
        let mut counts: Vec<usize> = Vec::new();
        let mut visible: Vec<usize> = Vec::new();
        for k in 0..31usize
            invariant
                counts.len() == k,
                visible.len() == 3 * k,
                forall|d: int| 0 <= d < k ==> counts[d] == 0,
        {
            counts.push(0);
            visible.push(0);
            visible.push(0);
            visible.push(0);
        }
        let n = self.events.len();
        for i in 0..n
            invariant
                n == self.events.len(),
                dates == event_dates(self@.events),
                counts.len() == 31,
                visible.len() == 93,
                forall|d: int| 0 <= d < 31 ==> #[trigger] counts[d] <= i,
                forall|d: int| 0 <= d < 31 ==> #[trigger] counts[d]
                    == matching_events(dates, year as int, month as int, d + 1, i as int).len(),
                forall|d: int, k: int| 0 <= d < 31 && 0 <= k < 3 && k < counts[d] ==>
                    #[trigger] visible[3 * d + k]
                        == matching_events(dates, year as int, month as int, d + 1, i as int)[k],
        {
            let date = self.events[i].date;
            assert(dates[i as int] == date);
            if date.year == year && date.month == month && date.day != 0 && date.day <= 31 {
                let slot = date.day - 1;
                let c = counts[slot];
                if c < 3 {
                    visible.set(3 * slot + c, i);
                }
                counts.set(slot, c + 1);
            }
            assert forall|d: int| 0 <= d < 31 implies #[trigger] counts[d]
                == matching_events(dates, year as int, month as int, d + 1, i + 1).len() by {
                let prev = matching_events(dates, year as int, month as int, d + 1, i as int);
                assert(matching_events(dates, year as int, month as int, d + 1, i + 1) == if date.year == year
                    && date.month == month && date.day == d + 1 { prev.push(i) } else { prev });
            }
            assert forall|d: int, k: int| 0 <= d < 31 && 0 <= k < 3 && k < counts[d] implies
                #[trigger] visible[3 * d + k]
                    == matching_events(dates, year as int, month as int, d + 1, i + 1)[k] by {
                let prev = matching_events(dates, year as int, month as int, d + 1, i as int);
                assert(matching_events(dates, year as int, month as int, d + 1, i + 1) == if date.year == year
                    && date.month == month && date.day == d + 1 { prev.push(i) } else { prev });
            }
        }
        let mut r: Vec<DayEventBucket> = Vec::new();
        for d in 0..31usize
            invariant
                counts.len() == 31,
                visible.len() == 93,
                r.len() == d,
                forall|e: int| 0 <= e < d ==> #[trigger] bucket_describes(r[e],
                    matching_events(dates, year as int, month as int, e + 1, n as int)),
                forall|e: int| 0 <= e < 31 ==> #[trigger] counts[e]
                    == matching_events(dates, year as int, month as int, e + 1, n as int).len(),
                forall|e: int, k: int| 0 <= e < 31 && 0 <= k < 3 && k < counts[e] ==>
                    #[trigger] visible[3 * e + k]
                        == matching_events(dates, year as int, month as int, e + 1, n as int)[k],
        {
            let count = counts[d];
            let bucket = DayEventBucket {
                count,
                visible_count: if count > 3 { 3 } else { count },
                visible_indices: [visible[3 * d], visible[3 * d + 1], visible[3 * d + 2]],
            };
            assert(visible[3 * d as int + 0] == visible[3 * d as int]);
            r.push(bucket);
        }
        r
    }
}

/// Paging by `delta` months lands on the month `delta` months away, counted
/// across years, stopping at January of year 1 and December 9999; the
/// focused day is kept, brought into the new month, and selection, binding
/// and pending change are untouched.
pub proof fn lemma_shifted_months_lands(m: CalendarModel, delta: int)
    requires calendar_wf(m),
    ensures
        ({
            let s = shifted_months(m, delta);
            let target = (m.year - 1) * 12 + m.month - 1 + delta;
            let last = (9999 - 1) * 12 + 11;
            &&& 1 <= s.month <= 12
            &&& 1 <= s.year <= 9999
            &&& (s.year - 1) * 12 + s.month - 1 == if target < 0 { 0 } else if target > last { last } else { target }
            &&& s.focused_day == if m.focused_day < 1 { 1 } else if m.focused_day > spec_days_in_month(s.year, s.month) {
                    spec_days_in_month(s.year, s.month)
                } else {
                    m.focused_day
                }
            &&& s.selected == m.selected && s.binding == m.binding && s.pending == m.pending
        }),
{
    let i = clamp_int(month_index(m.year, m.month) + delta, 0, max_month_index());
    vstd::arithmetic::div_mod::lemma_fundamental_div_mod(i, 12);
}

/// Moving the displayed month forward and back by the same step, without
/// reaching either end of the supported range, shows the starting month again.
pub proof fn lemma_shift_months_round_trip(m: CalendarModel, delta: int)
    requires
        calendar_wf(m),
        0 <= month_index(m.year, m.month) + delta <= max_month_index(),
    ensures
        shifted_months(shifted_months(m, delta), -delta).year == m.year,
        shifted_months(shifted_months(m, delta), -delta).month == m.month,
{
    let i = month_index(m.year, m.month);
    vstd::arithmetic::div_mod::lemma_fundamental_div_mod_converse(i, 12, m.year - 1, m.month - 1);
    let j = i + delta;
    vstd::arithmetic::div_mod::lemma_fundamental_div_mod(j, 12);
    let s = shifted_months(m, delta);
    assert(month_index(s.year, s.month) == j);
}

/// With year jumps, the next page shows the same month of the following year.
pub proof fn lemma_year_jump_keeps_month(m: CalendarModel)
    requires
        calendar_wf(m),
        m.year_jump,
        m.year < MAX_YEAR,
    ensures
        shifted_months(m, navigation_step(m)).year == m.year + 1,
        shifted_months(m, navigation_step(m)).month == m.month,
{
    let i = month_index(m.year, m.month) + 12;
    vstd::arithmetic::div_mod::lemma_fundamental_div_mod_converse(i, 12, m.year, m.month - 1);
}

/// Moving keyboard focus by a step and back, away from the ends of the range,
/// returns to the same day number; since a real date is fixed by its day number,
/// focus returns to the same date.
pub proof fn lemma_focus_step_round_trip(start: CalendarModel, moved: CalendarModel, back: CalendarModel, step: int)
    requires
        calendar_wf(start),
        is_valid_date(start.year, start.month, start.focused_day),
        0 <= focused_ordinal(start) + step <= max_ordinal(),
        calendar_wf(back),
        is_valid_date(back.year, back.month, back.focused_day),
        focused_ordinal(moved) == clamp_int(focused_ordinal(start) + step, 0, max_ordinal()),
        focused_ordinal(back) == clamp_int(focused_ordinal(moved) - step, 0, max_ordinal()),
    ensures
        back.year == start.year,
        back.month == start.month,
        back.focused_day == start.focused_day,
{
    lemma_ordinal_bounds(start.year, start.month, start.focused_day);
    lemma_ordinal_injective(back.year, back.month, back.focused_day, start.year, start.month,
        start.focused_day);
}

/// Committing a date that is not disabled selects the focused date; when the
/// selection changes in controlled mode, the bound state then holds the newly
/// selected date and the change is reported; committing again changes nothing.
pub proof fn lemma_commit_selects_focus(m: CalendarModel)
    ensures
        committed(m, false).selected == Some(focused_date(m)),
        m.selected != Some(focused_date(m)) ==> committed(m, false).pending == Some(focused_date(m)),
        m.selected != Some(focused_date(m)) && m.binding is Some
            ==> committed(m, false).binding == Some(focused_date(m)),
        committed(committed(m, false), false) == committed(m, false),
{
}

/// A disabled date is never selected, and nothing else changes.
pub proof fn lemma_disabled_commit_is_ignored(m: CalendarModel)
    ensures committed(m, true) == m,
{
}

/// Days a focus key moves: one for left and right, a week for up and down.
pub open spec fn key_day_step(key: KeyCode) -> int {
    match key {
        KeyCode::Left => -1,
        KeyCode::Right => 1,
        KeyCode::Up => -7,
        KeyCode::Down => 7,
        _ => 0,
    }
}

/// Left and right move focus by one day, up and down by one week.
pub proof fn lemma_focus_key_steps()
    ensures
        key_day_step(KeyCode::Left) == -1,
        key_day_step(KeyCode::Right) == 1,
        key_day_step(KeyCode::Up) == -7,
        key_day_step(KeyCode::Down) == 7,
{
}

/// Next state and result of a primary-button press at `pos`.
pub open spec fn spec_pointer_down(m: CalendarModel, pos: Point, day_disabled: bool) -> (CalendarModel, EventResult) {
    let width = m.cell_size * 7;
    let header = HEADER_HEIGHT as int;
    if pos.x < 0 || pos.x >= width || pos.y < 0 {
        (m, EventResult::NotHandled)
    } else if pos.y < header {
        if pos.x < header {
            (shifted_months(m, -navigation_step(m)), EventResult::Handled)
        } else if pos.x >= width - header {
            (shifted_months(m, navigation_step(m)), EventResult::Handled)
        } else {
            (m, EventResult::NotHandled)
        }
    } else {
        match spec_day_at(m, pos) {
            Some(day) => if day_disabled {
                (m, EventResult::NotHandled)
            } else {
                (committed(CalendarModel { focused_day: day as int, ..m }, false), EventResult::Handled)
            },
            None => (m, EventResult::NotHandled),
        }
    }
}

/// Day whose cell holds `pos`: below the title row, inside the six-by-seven grid,
/// counted from the weekday of the month's first day.
pub open spec fn spec_day_at(m: CalendarModel, pos: Point) -> Option<usize> {
    let cell = m.cell_size;
    let top = HEADER_HEIGHT as int;
    if pos.y < top || pos.y >= top + cell * 6 {
        None
    } else {
        let column = if pos.x < 0 { 0 } else { pos.x as int / cell };
        let row = (pos.y as int - top) / cell;
        if column >= 7 || row >= 6 {
            None
        } else {
            let slot = row * 7 + column;
            let first = spec_first_weekday(m.year, m.month);
            if slot < first || slot - first + 1 > spec_days_in_month(m.year, m.month) {
                None
            } else {
                Some((slot - first + 1) as usize)
            }
        }
    }
}

} // verus!

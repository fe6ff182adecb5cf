use vstd::prelude::*;

use crate::document::Document;
use crate::row::{clip, push_char, Row};
use crate::terminal::{Size, Terminal};

verus! {

/// A cell of the viewport: column `x`, row `y`.
#[derive(Clone, Copy, Debug, Default, PartialEq, Eq, Structural)]
pub struct Position {
    pub x: usize,
    pub y: usize,
}

/// The keys that the editor tells apart.
#[derive(Clone, Copy, Debug, PartialEq, Eq, Structural)]
pub enum KeyCode {
    Char(char),
    Left,
    Right,
    Up,
    Down,
    PageUp,
    PageDown,
    Home,
    End,
    Other,
}

/// The bit of `KeyEvent::modifiers` that stands for the Control key.
pub const CONTROL: u8 = 0b0000_0010;

/// One key press: the key and the set of modifier keys held, as bits.
#[derive(Clone, Copy, Debug, PartialEq, Eq, Structural)]
pub struct KeyEvent {
    pub code: KeyCode,
    pub modifiers: u8,
}

/// What the caller has to do after a key press, beside redrawing.
#[derive(Clone, Copy, Debug, PartialEq, Eq, Structural)]
pub enum Action {
    Nothing,
    Echo(char),
}

/// One operation on the terminal.
#[derive(Debug, PartialEq, Eq)]
pub enum ScreenOp {
    HideCursor,
    ShowCursor,
    MoveTo(Position),
    ClearScreen,
    ClearLine,
    Print(String),
}

/// A terminal operation, with the characters that it prints.
pub enum ScreenCmd {
    HideCursor,
    ShowCursor,
    MoveTo(Position),
    ClearScreen,
    ClearLine,
    Print(Seq<char>),
}

impl View for ScreenOp {
    type V = ScreenCmd;

    open spec fn view(&self) -> ScreenCmd {
        match self {
            ScreenOp::HideCursor => ScreenCmd::HideCursor,
            ScreenOp::ShowCursor => ScreenCmd::ShowCursor,
            ScreenOp::MoveTo(p) => ScreenCmd::MoveTo(*p),
            ScreenOp::ClearScreen => ScreenCmd::ClearScreen,
            ScreenOp::ClearLine => ScreenCmd::ClearLine,
            ScreenOp::Print(s) => ScreenCmd::Print(s@),
        }
    }
}

/// The commands that a list of operations stands for.
pub open spec fn ops_view(ops: Seq<ScreenOp>) -> Seq<ScreenCmd> {
    ops.map_values(|o: ScreenOp| o@)
}

/// The top left cell.
pub open spec fn origin() -> Position {
    Position { x: 0, y: 0 }
}

/// The lowest row of a viewport `height` rows high (row 0 where it has none).
pub open spec fn last_row(height: u16) -> usize {
    if height == 0 {
        0
    } else {
        (height - 1) as usize
    }
}

/// `p` lies on the viewport, or in the column just right of it.
pub open spec fn within(p: Position, s: Size) -> bool {
    p.x <= s.width && p.y <= last_row(s.height)
}

/// Where the cursor goes from `p` when `key` is pressed on a viewport of size `s`.
pub open spec fn moved(p: Position, key: KeyCode, s: Size) -> Position {
    match key {
        KeyCode::Up => Position { x: p.x, y: if p.y > 0 { (p.y - 1) as usize } else { 0 } },
        KeyCode::Down => if p.y < last_row(s.height) {
            Position { x: p.x, y: (p.y + 1) as usize }
        } else {
            p
        },
        KeyCode::Left => Position { x: if p.x > 0 { (p.x - 1) as usize } else { 0 }, y: p.y },
        KeyCode::Right => if p.x < s.width {
            Position { x: (p.x + 1) as usize, y: p.y }
        } else {
            p
        },
        KeyCode::PageUp => Position { x: p.x, y: 0 },
        KeyCode::PageDown => Position { x: p.x, y: last_row(s.height) },
        KeyCode::Home => Position { x: 0, y: p.y },
        KeyCode::End => Position { x: s.width as usize, y: p.y },
        _ => p,
    }
}

/// Where the cursor is after `key` has been pressed `n` times from `p`.
pub open spec fn pressed(p: Position, key: KeyCode, s: Size, n: nat) -> Position
    decreases n,
{
    if n == 0 {
        p
    } else {
        moved(pressed(p, key, s, (n - 1) as nat), key, s)
    }
}

/// `key` is the character `c` with Control, and no other modifier, held.
pub open spec fn is_ctrl_char(key: KeyEvent, c: char) -> bool {
    key.code == KeyCode::Char(c) && key.modifiers == CONTROL
}

/// `key` asks the editor to quit: Control+C or Control+Q.
pub open spec fn is_quit_key(key: KeyEvent) -> bool {
    is_ctrl_char(key, 'c') || is_ctrl_char(key, 'q')
}

/// Whether the editor quits, from the flag `quitting`, after each of `keys` in turn.
pub open spec fn quitting_after(quitting: bool, keys: Seq<KeyEvent>) -> bool
    decreases keys.len(),
{
    if keys.len() == 0 {
        quitting
    } else {
        quitting_after(quitting || is_quit_key(keys[0]), keys.drop_first())
    }
}

/// What a key press asks of the caller: a character other than a quit key is echoed.
pub open spec fn response(key: KeyEvent) -> Action {
    if !is_quit_key(key) && key.code is Char {
        Action::Echo(key.code->Char_0)
    } else {
        Action::Nothing
    }
}

/// The number of decimal digits of `n`; 1 for 0.
pub open spec fn digit_count(n: nat) -> nat
    decreases n,
{
    if n < 10 {
        1
    } else {
        1 + digit_count(n / 10)
    }
}

/// The character of the decimal digit `d`.
pub open spec fn digit_char(d: nat) -> char {
    ((d + 48) as u8) as char
}

/// The decimal digits of `n`, most significant first.
pub open spec fn decimal(n: nat) -> Seq<char>
    decreases n,
{
    if n < 10 {
        seq![digit_char(n)]
    } else {
        decimal(n / 10).push(digit_char(n % 10))
    }
}

/// `k` spaces.
pub open spec fn spaces(k: nat) -> Seq<char> {
    Seq::new(k, |_i: int| ' ')
}

/// The line number `n` right-aligned in a field `width` characters wide
/// (wider where its digits need more), and one space after it.
pub open spec fn gutter(n: nat, width: nat) -> Seq<char> {
    let digits = decimal(n);
    let pad = if width > digits.len() { (width - digits.len()) as nat } else { 0 };
    spaces(pad) + digits + seq![' ']
}

/// What is drawn on viewport row `r`: the line number, then the text of
/// document row `r` clipped to the viewport's width, if there is such a row.
pub open spec fn line_ops(lines: Seq<Seq<char>>, s: Size, r: nat) -> Seq<ScreenCmd> {
    let head = seq![
        ScreenCmd::MoveTo(Position { x: 0, y: r as usize }),
        ScreenCmd::ClearLine,
        ScreenCmd::Print(gutter(r, digit_count(s.height as nat))),
    ];
    if r < lines.len() {
        head.push(ScreenCmd::Print(clip(lines[r as int], 0, s.width as int)))
    } else {
        head
    }
}

/// What is drawn on the first `k` rows of the viewport, top to bottom.
pub open spec fn rows_ops(lines: Seq<Seq<char>>, s: Size, k: nat) -> Seq<ScreenCmd>
    decreases k,
{
    if k == 0 {
        Seq::empty()
    } else {
        rows_ops(lines, s, (k - 1) as nat) + line_ops(lines, s, (k - 1) as nat)
    }
}

/// One full redraw: hide the cursor, draw every viewport row, put the cursor
/// back where it stands and show it, and when quitting say goodbye.
pub open spec fn refresh_ops(
    lines: Seq<Seq<char>>,
    s: Size,
    cursor: Position,
    quitting: bool,
) -> Seq<ScreenCmd> {
    let ops = seq![ScreenCmd::HideCursor, ScreenCmd::MoveTo(origin())] + rows_ops(
        lines,
        s,
        s.height as nat,
    ) + seq![ScreenCmd::MoveTo(cursor), ScreenCmd::ShowCursor];
    if quitting {
        ops.push(ScreenCmd::Print("Exiting RustAnd!"@))
    } else {
        ops
    }
}

/// Pressing Up `n` times moves the cursor `n` rows up, stopping at the top
/// row: from `n >= p.y` on it stays at row 0.
pub proof fn lemma_up_saturates(p: Position, s: Size, n: nat)
    requires
        s.width >= 1,
        s.height >= 1,
        within(p, s),
    ensures
        pressed(p, KeyCode::Up, s, n) == (Position {
            x: p.x,
            y: if n >= p.y { 0 } else { (p.y - n) as usize },
        }),
        n >= p.y ==> pressed(p, KeyCode::Up, s, n).y == 0,
    decreases n,
{
    if n > 0 {
        lemma_up_saturates(p, s, (n - 1) as nat);
    }
}

/// Pressing Down `n` times moves the cursor `n` rows down, stopping at the
/// bottom row: from `n >= h - 1 - p.y` on it stays at row `h - 1`.
pub proof fn lemma_down_saturates(p: Position, s: Size, n: nat)
    requires
        s.width >= 1,
        s.height >= 1,
        within(p, s),
    ensures
        pressed(p, KeyCode::Down, s, n) == (Position {
            x: p.x,
            y: if p.y + n >= s.height - 1 { (s.height - 1) as usize } else { (p.y + n) as usize },
        }),
        p.y + n >= s.height - 1 ==> pressed(p, KeyCode::Down, s, n).y == s.height - 1,
    decreases n,
{
    if n > 0 {
        lemma_down_saturates(p, s, (n - 1) as nat);
    }
}

/// Pressing Left `n` times moves the cursor `n` columns left, stopping at
/// column 0: from `n >= p.x` on it stays there.
pub proof fn lemma_left_saturates(p: Position, s: Size, n: nat)
    requires
        s.width >= 1,
        s.height >= 1,
        within(p, s),
    ensures
        pressed(p, KeyCode::Left, s, n) == (Position {
            x: if n >= p.x { 0 } else { (p.x - n) as usize },
            y: p.y,
        }),
        n >= p.x ==> pressed(p, KeyCode::Left, s, n).x == 0,
    decreases n,
{
    if n > 0 {
        lemma_left_saturates(p, s, (n - 1) as nat);
    }
}

/// Pressing Right `n` times moves the cursor `n` columns right, stopping at
/// column `w`: from `n >= w - p.x` on it stays there.
pub proof fn lemma_right_saturates(p: Position, s: Size, n: nat)
    requires
        s.width >= 1,
        s.height >= 1,
        within(p, s),
    ensures
        pressed(p, KeyCode::Right, s, n) == (Position {
            x: if p.x + n >= s.width { s.width as usize } else { (p.x + n) as usize },
            y: p.y,
        }),
        p.x + n >= s.width ==> pressed(p, KeyCode::Right, s, n).x == s.width,
    decreases n,
{
    if n > 0 {
        lemma_right_saturates(p, s, (n - 1) as nat);
    }
}

/// Page Up, pressed once or any number of times more, leaves the cursor on
/// row 0; End, likewise, leaves it in column `w`.
pub proof fn lemma_page_up_and_end_idempotent(p: Position, s: Size, n: nat)
    requires
        n >= 1,
    ensures
        pressed(p, KeyCode::PageUp, s, n).y == 0,
        pressed(p, KeyCode::End, s, n).x == s.width,
    decreases n,
{
    if n > 1 {
        lemma_page_up_and_end_idempotent(p, s, (n - 1) as nat);
    }
}

/// Once the quit flag is set, no key press clears it.
pub proof fn lemma_quitting_stays(keys: Seq<KeyEvent>)
    ensures
        quitting_after(true, keys),
    decreases keys.len(),
{
    if keys.len() > 0 {
        lemma_quitting_stays(keys.drop_first());
    }
}

/// From a running editor, Control+C or Control+Q sets the quit flag, and
/// whatever keys would come after, it stays set: the run loop, which reads a
/// key only while the flag is clear, reads none after it.
pub proof fn lemma_quit_transition(key: KeyEvent, later: Seq<KeyEvent>)
    requires
        is_quit_key(key),
    ensures
        quitting_after(false, seq![key]),
        quitting_after(false, seq![key] + later),
{
    let keys = seq![key] + later;
    assert(keys[0] == key);
    assert(keys.drop_first() =~= later);
    assert(seq![key].drop_first() =~= Seq::<KeyEvent>::empty());
    lemma_quitting_stays(seq![key].drop_first());
    lemma_quitting_stays(later);
}

proof fn lemma_digit_count_le(n: nat)
    requires
        n >= 1,
    ensures
        digit_count(n) <= n,
    decreases n,
{
    if n >= 10 {
        lemma_digit_count_le(n / 10);
    }
}

proof fn lemma_decimal_len(n: nat)
    ensures
        decimal(n).len() == digit_count(n),
    decreases n,
{
    if n >= 10 {
        lemma_decimal_len(n / 10);
    }
}

/// The number of decimal digits of `n`.
pub fn number_length(n: usize) -> (r: usize)
    ensures
        r == digit_count(n as nat),
{
    if n == 0 {
        return 1;
    }
    proof {
        lemma_digit_count_le(n as nat);
    }
    let mut m: usize = n;
    let mut len: usize = 0;
    while m != 0
        invariant
            n >= 1,
            digit_count(n as nat) <= n,
            m == 0 ==> len == digit_count(n as nat),
            m != 0 ==> len + digit_count(m as nat) == digit_count(n as nat),
        decreases m,
    {
        len += 1;
        m /= 10;
    }
    len
}

/// The character of the decimal digit `d`.
fn digit(d: usize) -> (c: char)
    requires
        d < 10,
    ensures
        c == digit_char(d as nat),
{
    ((d as u8) + 48u8) as char
}

/// Appends the decimal digits of `n` to `s`.
fn push_decimal(s: &mut String, n: usize)
    ensures
        final(s)@ == old(s)@ + decimal(n as nat),
    decreases n,
{
    if n >= 10 {
        push_decimal(s, n / 10);
    }
    push_char(s, digit(n % 10));
    proof {
        if n >= 10 {
            assert(final(s)@ =~= old(s)@ + decimal(n as nat));
        } else {
            assert(final(s)@ =~= old(s)@ + decimal(n as nat));
        }
    }
}

/// The line number `n` right-aligned in `width` columns, then one space.
fn format_line_number(n: usize, width: usize) -> (r: String)
    ensures
        r@ == gutter(n as nat, width as nat),
{
    let len = number_length(n);
    proof {
        lemma_decimal_len(n as nat);
    }
    let pad: usize = if width > len { width - len } else { 0 };
    let mut s = String::new();
    let mut i: usize = 0;
    while i < pad
        invariant
            i <= pad,
            s@ == spaces(i as nat),
        decreases pad - i,
    {
        push_char(&mut s, ' ');
        i += 1;
        assert(s@ =~= spaces(i as nat));
    }
    push_decimal(&mut s, n);
    push_char(&mut s, ' ');
    assert(s@ =~= gutter(n as nat, width as nat));
    s
}

/// Appends `op` to `ops`.
fn push_op(ops: &mut Vec<ScreenOp>, op: ScreenOp)
    ensures
        ops_view(final(ops)@) == ops_view(old(ops)@).push(op@),
{
    ops.push(op);
    assert(ops_view(final(ops)@) =~= ops_view(old(ops)@).push(op@));
}

/// A viewer over one document, on a viewport of fixed size, with a cursor and
/// a flag that is set once the user asks to quit.
pub struct Editor {
    should_quit: bool,
    terminal: Terminal,
    cursor_position: Position,
    document: Document,
}

impl Editor {
    /// Whether the user has asked to quit.
    pub closed spec fn quitting(&self) -> bool {
        self.should_quit
    }

    /// Where the cursor stands on the viewport.
    pub closed spec fn cursor(&self) -> Position {
        self.cursor_position
    }

    /// The size of the viewport.
    pub closed spec fn viewport(&self) -> Size {
        self.terminal@
    }

    /// The rows of the document.
    pub closed spec fn lines(&self) -> Seq<Seq<char>> {
        self.document@
    }

    /// The cursor lies on the viewport or just right of it.
    pub open spec fn wf(&self) -> bool {
        within(self.cursor(), self.viewport())
    }

    /// An editor on `document` and `terminal`, with the cursor at the origin.
    pub fn new(document: Document, terminal: Terminal) -> (r: Editor)
        ensures
            !r.quitting(),
            r.cursor() == origin(),
            r.viewport() == terminal@,
            r.lines() == document@,
            r.wf(),
    {
        Editor { should_quit: false, terminal, cursor_position: Position { x: 0, y: 0 }, document }
    }

    /// Whether the user has asked to quit.
    pub fn should_quit(&self) -> (r: bool)
        ensures
            r == self.quitting(),
    {
        self.should_quit
    }

    /// Where the cursor stands on the viewport.
    pub fn cursor_position(&self) -> (r: Position)
        ensures
            r == self.cursor(),
    {
        self.cursor_position
    }

    /// The document shown.
    pub fn document(&self) -> (r: &Document)
        ensures
            r@ == self.lines(),
    {
        &self.document
    }

    /// The terminal drawn on.
    pub fn terminal(&self) -> (r: &Terminal)
        ensures
            r@ == self.viewport(),
    {
        &self.terminal
    }

    /// The operations that clear the screen and put the cursor home, before the
    /// process stops on a terminal failure.
    pub fn die() -> (r: Vec<ScreenOp>)
        ensures
            ops_view(r@) == seq![ScreenCmd::ClearScreen, ScreenCmd::MoveTo(origin())],
    {
        let mut ops: Vec<ScreenOp> = Vec::new();
        push_op(&mut ops, ScreenOp::ClearScreen);
        push_op(&mut ops, ScreenOp::MoveTo(Position { x: 0, y: 0 }));
        assert(ops_view(ops@) =~= seq![ScreenCmd::ClearScreen, ScreenCmd::MoveTo(origin())]);
        ops
    }

    /// The operations that end the session: clear the screen, put the cursor
    /// home and print the farewell.
    pub fn exit_screen() -> (r: Vec<ScreenOp>)
        ensures
            ops_view(r@) == seq![
                ScreenCmd::ClearScreen,
                ScreenCmd::MoveTo(origin()),
                ScreenCmd::Print("Exiting RustAnd"@),
            ],
    {
        let mut ops: Vec<ScreenOp> = Vec::new();
        push_op(&mut ops, ScreenOp::ClearScreen);
        push_op(&mut ops, ScreenOp::MoveTo(Position { x: 0, y: 0 }));
        push_op(&mut ops, ScreenOp::Print(String::from_str("Exiting RustAnd")));
        assert(ops_view(ops@) =~= seq![
            ScreenCmd::ClearScreen,
            ScreenCmd::MoveTo(origin()),
            ScreenCmd::Print("Exiting RustAnd"@),
        ]);
        ops
    }

    /// Moves the cursor as `key` asks, within the viewport.
    pub fn move_cursor(&mut self, key: KeyCode)
        ensures
            final(self).cursor() == moved(old(self).cursor(), key, old(self).viewport()),
            final(self).quitting() == old(self).quitting(),
            final(self).viewport() == old(self).viewport(),
            final(self).lines() == old(self).lines(),
            old(self).wf() ==> final(self).wf(),
    {
        let Position { mut x, mut y } = self.cursor_position;
        let size = *self.terminal.size();
        match key {
            KeyCode::Up => y = y.saturating_sub(1),
            KeyCode::Down => {
                if y < size.height.saturating_sub(1) as usize {
                    y = y + 1;
                }
            },
            KeyCode::Left => x = x.saturating_sub(1),
            KeyCode::Right => {
                if x < size.width as usize {
                    x = x + 1;
                }
            },
            KeyCode::PageUp => y = 0,
            KeyCode::PageDown => y = size.height.saturating_sub(1) as usize,
            KeyCode::Home => x = 0,
            KeyCode::End => x = size.width as usize,
            _ => {},
        }
        self.cursor_position = Position { x, y };
    }

    /// Handles one key press: Control+C or Control+Q sets the quit flag, any
    /// other character is handed back to be echoed, and the movement keys move
    /// the cursor.
    pub fn process_keypress(&mut self, key: KeyEvent) -> (r: Action)
        ensures
            r == response(key),
            final(self).quitting() == (old(self).quitting() || is_quit_key(key)),
            final(self).cursor() == if is_quit_key(key) {
                old(self).cursor()
            } else {
                moved(old(self).cursor(), key.code, old(self).viewport())
            },
            final(self).viewport() == old(self).viewport(),
            final(self).lines() == old(self).lines(),
            old(self).wf() ==> final(self).wf(),
    {
        if Editor::check_if_ctrl_char(key, 'c') || Editor::check_if_ctrl_char(key, 'q') {
            self.should_quit = true;
            return Action::Nothing;
        }
        match key.code {
            KeyCode::Char(c) => Action::Echo(c),
            KeyCode::Left
            | KeyCode::Right
            | KeyCode::Up
            | KeyCode::Down
            | KeyCode::PageUp
            | KeyCode::PageDown
            | KeyCode::End
            | KeyCode::Home => {
                self.move_cursor(key.code);
                Action::Nothing
            },
            KeyCode::Other => Action::Nothing,
        }
    }

    /// Whether `key` is the character `c` with Control and no other modifier.
    pub fn check_if_ctrl_char(key: KeyEvent, c: char) -> (r: bool)
        ensures
            r == is_ctrl_char(key, c),
    {
        key.code == KeyCode::Char(c) && key.modifiers == CONTROL
    }

    /// The text of `row` that fits the viewport's width.
    pub fn draw_row(&self, row: &Row) -> (r: String)
        ensures
            r@ == clip(row@, 0, self.viewport().width as int),
    {
        row.render(0, self.terminal.size().width as usize)
    }

    /// Appends the operations that draw every viewport row to `ops`.
    fn push_rows(&self, ops: &mut Vec<ScreenOp>)
        ensures
            ops_view(final(ops)@) == ops_view(old(ops)@) + rows_ops(
                self.lines(),
                self.viewport(),
                self.viewport().height as nat,
            ),
    {
        let height = self.terminal.size().height;
        let width = number_length(height as usize);
        let ghost start = ops_view(ops@);
        let mut r: u16 = 0;
        assert(start =~= start + rows_ops(self.lines(), self.viewport(), 0));
        while r < height
            invariant
                r <= height,
                height == self.viewport().height,
                width == digit_count(height as nat),
                ops_view(ops@) == start + rows_ops(self.lines(), self.viewport(), r as nat),
            decreases height - r,
        {
            let ghost before = ops_view(ops@);
            push_op(ops, ScreenOp::MoveTo(Position { x: 0, y: r as usize }));
            push_op(ops, ScreenOp::ClearLine);
            push_op(ops, ScreenOp::Print(format_line_number(r as usize, width)));
            match self.document.row(r as usize) {
                Some(row) => {
                    push_op(ops, ScreenOp::Print(self.draw_row(row)));
                },
                None => {},
            }
            assert(ops_view(ops@) =~= before + line_ops(self.lines(), self.viewport(), r as nat));
            assert(start + rows_ops(self.lines(), self.viewport(), (r + 1) as nat) =~= before
                + line_ops(self.lines(), self.viewport(), r as nat));
            r += 1;
        }
    }

    /// Every viewport row, top to bottom: line number, then document text.
    pub fn draw_rows(&self) -> (r: Vec<ScreenOp>)
        ensures
            ops_view(r@) == rows_ops(self.lines(), self.viewport(), self.viewport().height as nat),
    {
        let mut ops: Vec<ScreenOp> = Vec::new();
        self.push_rows(&mut ops);
        assert(ops_view(ops@) =~= rows_ops(
            self.lines(),
            self.viewport(),
            self.viewport().height as nat,
        ));
        ops
    }

    /// One full redraw of the screen.
    pub fn refresh_screen(&self) -> (r: Vec<ScreenOp>)
        ensures
            ops_view(r@) == refresh_ops(
                self.lines(),
                self.viewport(),
                self.cursor(),
                self.quitting(),
            ),
    {
        let mut ops: Vec<ScreenOp> = Vec::new();
        push_op(&mut ops, ScreenOp::HideCursor);
        push_op(&mut ops, ScreenOp::MoveTo(Position { x: 0, y: 0 }));
        self.push_rows(&mut ops);
        push_op(&mut ops, ScreenOp::MoveTo(self.cursor_position));
        push_op(&mut ops, ScreenOp::ShowCursor);
        if self.should_quit {
            push_op(&mut ops, ScreenOp::Print(String::from_str("Exiting RustAnd!")));
        }
        assert(ops_view(ops@) =~= refresh_ops(
            self.lines(),
            self.viewport(),
            self.cursor(),
            self.quitting(),
        ));
        ops
    }
}

} // verus!

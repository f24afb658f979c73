//! The session controller: the screens, the transition function over
//! (screen, input event) pairs, and the per-screen state that surrounds the
//! deck engine.
use vstd::prelude::*;

use crate::catalog::sort_strings;
use crate::catalog::sorted_by_lex;
use crate::deck::eng_added;
use crate::deck::eng_advanced;
use crate::deck::eng_answer_set;
use crate::deck::eng_deleted;
use crate::deck::eng_loaded;
use crate::deck::eng_mode_set;
use crate::deck::eng_question_set;
use crate::deck::eng_recorded_text;
use crate::deck::lemma_perm_range;
use crate::deck::DeckError;
use crate::deck::FlashCardEngine;
use crate::max_usize;
use crate::min_usize;
use crate::text::chars_to_string;
use crate::text::normalize_lines;
use crate::text::str_chars;
use crate::text::trim_chars;
use crate::text::trim_sp;

verus! {

/// The screens of the navigation machine.
#[derive(Clone, Copy, PartialEq, Eq, Structural, Debug)]
pub enum Screen {
    TopicSelect,
    TopicCreate,
    MainMenu,
    CardList,
    Mode,
    Ask,
    Reveal,
    Review,
    EditQuestion,
    EditAnswer,
    Done,
    ConfirmQuit,
}

/// One abstract input event: a plain character, a control-chord character,
/// or a navigation key.
#[derive(Clone, Copy, Debug)]
pub enum Key {
    Char(char),
    Ctrl(char),
    Enter,
    Esc,
    Backspace,
    Delete,
    Left,
    Right,
    Up,
    Down,
    Other,
}

/// What the caller must do after a transition: nothing, stop the process,
/// open a topic's deck files and hand their lines back, or write the deck
/// back to its files.
#[derive(Debug)]
pub enum Effect {
    Stay,
    Quit,
    OpenTopic { name: String, register: bool },
    SaveDeck,
}

/// A cursor clamped to the buffer it points into.
pub open spec fn sp_clamp(cur: int, len: int) -> int {
    if cur <= len {
        cur
    } else {
        len
    }
}

/// Inserting a character at the (clamped) cursor, which then moves past it.
pub open spec fn sp_insert(buf: Seq<char>, cur: int, c: char) -> (Seq<char>, int) {
    let at = sp_clamp(cur, buf.len() as int);
    (buf.insert(at, c), at + 1)
}

/// Removing the character before the (clamped) cursor, which moves back.
pub open spec fn sp_backspace(buf: Seq<char>, cur: int) -> (Seq<char>, int) {
    let at = sp_clamp(cur, buf.len() as int);
    if at > 0 {
        (buf.remove(at - 1), at - 1)
    } else {
        (buf, cur)
    }
}

/// Removing the character at the (clamped) cursor; the cursor stays.
pub open spec fn sp_delete(buf: Seq<char>, cur: int) -> Seq<char> {
    let at = sp_clamp(cur, buf.len() as int);
    if at < buf.len() {
        buf.remove(at)
    } else {
        buf
    }
}

/// The cursor one step left, stopping at the start.
pub open spec fn sp_left(cur: int) -> int {
    if cur > 0 {
        cur - 1
    } else {
        0
    }
}

/// The cursor one step right, stopping at the buffer end.
pub open spec fn sp_right(cur: int, len: int) -> int {
    if cur < len {
        cur + 1
    } else {
        len
    }
}

/// A selection one step up, stopping at the first entry.
pub open spec fn sp_prev_sel(sel: int) -> int {
    if sel > 0 {
        sel - 1
    } else {
        0
    }
}

/// A selection one step down, stopping at the last entry of a list of the
/// given length.
pub open spec fn sp_next_sel(sel: int, len: int) -> int {
    let cap = if len > 0 {
        len - 1
    } else {
        0
    };
    if sel + 1 <= cap {
        sel + 1
    } else {
        cap
    }
}

/// What one text-editing key does to a buffer and its cursor.
pub open spec fn buf_step(buf: Seq<char>, cur: int, key: Key) -> (Seq<char>, int) {
    match key {
        Key::Char(c) => sp_insert(buf, cur, c),
        Key::Ctrl(c) => sp_insert(buf, cur, c),
        Key::Backspace => sp_backspace(buf, cur),
        Key::Delete => (sp_delete(buf, cur), cur),
        Key::Left => (buf, sp_left(cur)),
        Key::Right => (buf, sp_right(cur, buf.len() as int)),
        _ => (buf, cur),
    }
}

fn buf_insert(buf: &mut Vec<char>, cursor: &mut usize, c: char)
    ensures
        (final(buf)@, *final(cursor) as int) == sp_insert(old(buf)@, *old(cursor) as int, c),
{
    let at = min_usize(*cursor, buf.len());
    buf.insert(at, c);
    proof {
        assert(buf.len() == buf@.len());
    }
    *cursor = at + 1;
}

fn buf_backspace(buf: &mut Vec<char>, cursor: &mut usize)
    ensures
        (final(buf)@, *final(cursor) as int) == sp_backspace(old(buf)@, *old(cursor) as int),
{
    let at = min_usize(*cursor, buf.len());
    if at > 0 {
        buf.remove(at - 1);
        *cursor = at - 1;
    }
}

fn buf_delete(buf: &mut Vec<char>, cursor: usize)
    ensures
        final(buf)@ == sp_delete(old(buf)@, cursor as int),
{
    let at = min_usize(cursor, buf.len());
    if at < buf.len() {
        buf.remove(at);
    }
}

/// Applies one text-editing key to a buffer and its cursor.
fn apply_edit_key(buf: &mut Vec<char>, cursor: &mut usize, key: Key)
    ensures
        (final(buf)@, *final(cursor) as int) == buf_step(old(buf)@, *old(cursor) as int, key),
{
    match key {
        Key::Char(c) => buf_insert(buf, cursor, c),
        Key::Ctrl(c) => buf_insert(buf, cursor, c),
        Key::Backspace => buf_backspace(buf, cursor),
        Key::Delete => buf_delete(buf, *cursor),
        Key::Left => {
            *cursor = if *cursor > 0 {
                *cursor - 1
            } else {
                0
            };
        },
        Key::Right => {
            let len = buf.len();
            *cursor = if *cursor < len {
                *cursor + 1
            } else {
                len
            };
        },
        _ => {},
    }
}

/// The whole interactive state: the optional engine for the open topic, the
/// active screen, the shared text buffer with its cursor, the topic list,
/// and the small per-screen fields.
pub struct App {
    pub eng: Option<FlashCardEngine>,
    pub screen: Screen,
    pub input: Vec<char>,
    pub cursor: usize,
    pub review_scroll: u16,
    pub topics: Vec<String>,
    pub selected_topic: usize,
    pub topic_input: Vec<char>,
    pub current_topic: Option<String>,
    pub in_edit_mode: bool,
    pub selected_card: usize,
    pub edit_target: usize,
    pub prev_screen: Option<Screen>,
}

impl App {
    /// What being on a given screen demands of the rest of the state.
    pub open spec fn screen_ok(self, s: Screen) -> bool {
        match s {
            Screen::CardList => self.in_edit_mode,
            Screen::Reveal => match self.eng {
                Some(e) => e.current < e.order@.len(),
                None => true,
            },
            Screen::EditQuestion | Screen::EditAnswer => {
                &&& (match self.eng {
                    Some(e) => (self.edit_target as int) < e.questions@.len(),
                    None => true,
                })
                &&& (!self.in_edit_mode ==> match self.eng {
                    Some(e) => e.current < e.order@.len(),
                    None => true,
                })
            },
            _ => true,
        }
    }

    /// The controller invariant: a well-formed engine when one is loaded,
    /// selections clamped to their lists, the active screen's demands met,
    /// and, while the quit guard is up, the demands of the screen it will
    /// restore.
    pub open spec fn wf(self) -> bool {
        &&& (match self.eng {
            Some(e) => e.wf(),
            None => true,
        })
        &&& (self.selected_topic == 0 || (self.selected_topic as int) < self.topics@.len())
        &&& (match self.eng {
            Some(e) => self.selected_card == 0 || (self.selected_card as int)
                < e.questions@.len(),
            None => true,
        })
        &&& self.screen_ok(self.screen)
        &&& (self.screen is ConfirmQuit ==> match self.prev_screen {
            Some(p) => self.screen_ok(p),
            None => true,
        })
    }

    /// A fresh controller: no topic open, topic selection showing, every
    /// buffer and counter at its starting value.
    pub fn new() -> (r: App)
        ensures
            r.wf(),
            r.eng is None,
            r.screen is TopicSelect,
            r.input@ == Seq::<char>::empty(),
            r.cursor == 0,
            r.review_scroll == 0,
            r.topics@ == Seq::<String>::empty(),
            r.selected_topic == 0,
            r.topic_input@ == Seq::<char>::empty(),
            r.current_topic is None,
            r.in_edit_mode == false,
            r.selected_card == 0,
            r.edit_target == 0,
            r.prev_screen is None,
    {
        App {
            eng: None,
            screen: Screen::TopicSelect,
            input: Vec::new(),
            cursor: 0,
            review_scroll: 0,
            topics: Vec::new(),
            selected_topic: 0,
            topic_input: Vec::new(),
            current_topic: None,
            in_edit_mode: false,
            selected_card: 0,
            edit_target: 0,
            prev_screen: None,
        }
    }

    /// Installs the scanned topic names, sorted for a deterministic
    /// display, and keeps the selection inside the list.
    pub fn set_topics(&mut self, names: Vec<String>)
        requires
            old(self).wf(),
        ensures
            final(self).wf(),
            final(self).topics@.to_multiset() == names@.to_multiset(),
            sorted_by_lex(final(self).topics.deep_view()),
            final(self).selected_topic == min_sel(
                old(self).selected_topic as int,
                final(self).topics@.len() as int,
            ),
            *final(self) == (App {
                topics: final(self).topics,
                selected_topic: final(self).selected_topic,
                ..*old(self)
            }),
    {
        self.topics = names;
        sort_strings(&mut self.topics);
        let len = self.topics.len();
        self.selected_topic = min_usize(self.selected_topic, max_usize(len, 1) - 1);
    }

    /// Installs a freshly loaded engine for a topic: the screen moves to
    /// the main menu, the card selection is clamped to the new deck, and a
    /// newly created topic is added to the sorted list. A count mismatch
    /// leaves the state untouched and reports both counts.
    pub fn open_topic(
        &mut self,
        name: String,
        q_raw: &Vec<String>,
        a_raw: &Vec<String>,
        register: bool,
    ) -> (r: Result<(), DeckError>)
        requires
            old(self).wf(),
        ensures
            final(self).wf(),
            match r {
                Ok(()) => {
                    &&& (final(self).eng matches Some(e) && e.wf() && eng_loaded(
                        e,
                        q_raw.deep_view(),
                        a_raw.deep_view(),
                    ))
                    &&& (final(self).current_topic matches Some(t) && t == name)
                    &&& final(self).screen is MainMenu
                    &&& (if register {
                        final(self).topics@.to_multiset() == old(self).topics@.push(
                            name,
                        ).to_multiset() && sorted_by_lex(final(self).topics.deep_view())
                    } else {
                        final(self).topics == old(self).topics
                    })
                    &&& final(self).selected_card == min_sel(
                        old(self).selected_card as int,
                        normalize_lines(q_raw.deep_view()).len() as int,
                    )
                    &&& *final(self) == (App {
                        eng: final(self).eng,
                        current_topic: final(self).current_topic,
                        screen: Screen::MainMenu,
                        topics: final(self).topics,
                        selected_card: final(self).selected_card,
                        ..*old(self)
                    })
                },
                Err(DeckError::Mismatch { questions, answers }) => {
                    &&& *final(self) == *old(self)
                    &&& questions == normalize_lines(q_raw.deep_view()).len()
                    &&& answers == normalize_lines(a_raw.deep_view()).len()
                    &&& questions != answers
                },
            },
    {
        match FlashCardEngine::from_files(q_raw, a_raw) {
            Ok(e) => {
                let n = e.questions.len();
                self.eng = Some(e);
                if register {
                    let listed = name.clone();
                    self.current_topic = Some(name);
                    let ghost before = self.topics@;
                    self.topics.push(listed);
                    sort_strings(&mut self.topics);
                    proof {
                        broadcast use vstd::seq_lib::group_to_multiset_ensures;

                        assert(self.topics@.to_multiset().len() == self.topics@.len());
                        assert(before.push(listed).to_multiset().len() == before.push(
                            listed,
                        ).len());
                    }
                } else {
                    self.current_topic = Some(name);
                }
                self.selected_card = min_usize(self.selected_card, max_usize(n, 1) - 1);
                self.screen = Screen::MainMenu;
                Ok(())
            },
            Err(err) => Err(err),
        }
    }

    /// The one pointer action: a primary click on the progress area jumps
    /// to the review screen from anywhere.
    pub fn pointer_review(&mut self)
        requires
            old(self).wf(),
        ensures
            final(self).wf(),
            *final(self) == (App { screen: Screen::Review, ..*old(self) }),
    {
        self.screen = Screen::Review;
    }
}

/// A selection clamped into a list of the given length.
pub open spec fn min_sel(sel: int, len: int) -> int {
    let cap = if len > 0 {
        len - 1
    } else {
        0
    };
    if sel <= cap {
        sel
    } else {
        cap
    }
}

/// The quit chord, intercepted on every screen before its own handler.
pub open spec fn is_quit_chord(key: Key) -> bool {
    key matches Key::Ctrl(c) && c == 'q'
}

/// A text-editing key applied to the shared input buffer; nothing else
/// moves.
pub open spec fn input_edited(pre: App, key: Key, post: App, eff: Effect) -> bool {
    &&& eff == Effect::Stay
    &&& post == (App { input: post.input, cursor: post.cursor, ..pre })
    &&& (post.input@, post.cursor as int) == buf_step(pre.input@, pre.cursor as int, key)
}

/// A text-editing key applied to the topic-name buffer; nothing else moves.
pub open spec fn topic_input_edited(pre: App, key: Key, post: App, eff: Effect) -> bool {
    &&& eff == Effect::Stay
    &&& post == (App { topic_input: post.topic_input, cursor: post.cursor, ..pre })
    &&& (post.topic_input@, post.cursor as int) == buf_step(
        pre.topic_input@,
        pre.cursor as int,
        key,
    )
}

/// Topic selection: move the highlight, open the chosen topic, or switch to
/// topic creation.
pub open spec fn step_topic_select(pre: App, key: Key, post: App, eff: Effect) -> bool {
    match key {
        Key::Up => {
            &&& eff == Effect::Stay
            &&& post == (App { selected_topic: post.selected_topic, ..pre })
            &&& post.selected_topic == sp_prev_sel(pre.selected_topic as int)
        },
        Key::Down => {
            &&& eff == Effect::Stay
            &&& post == (App { selected_topic: post.selected_topic, ..pre })
            &&& post.selected_topic == sp_next_sel(
                pre.selected_topic as int,
                pre.topics@.len() as int,
            )
        },
        Key::Enter => post == pre && (if pre.topics@.len() > 0 {
            eff matches Effect::OpenTopic { name, register } && name
                == pre.topics@[pre.selected_topic as int] && register == false
        } else {
            eff == Effect::Stay
        }),
        Key::Char(c) | Key::Ctrl(c) => if c == 'c' || c == 'C' {
            &&& eff == Effect::Stay
            &&& post == (App {
                topic_input: post.topic_input,
                cursor: 0,
                screen: Screen::TopicCreate,
                ..pre
            })
            &&& post.topic_input@ == Seq::<char>::empty()
        } else {
            eff == Effect::Stay && post == pre
        },
        _ => eff == Effect::Stay && post == pre,
    }
}

/// Topic creation: a name with any non-white-space character asks for the
/// topic to be opened and registered; an empty or blank name is rejected
/// with no side effect, falling back to selection, as escape does; other
/// keys edit the name buffer.
pub open spec fn step_topic_create(pre: App, key: Key, post: App, eff: Effect) -> bool {
    match key {
        Key::Enter => if trim_sp(pre.topic_input@).len() > 0 {
            &&& (eff matches Effect::OpenTopic { name, register } && name@ == pre.topic_input@
                && register == true)
            &&& post == (App { topic_input: post.topic_input, ..pre })
            &&& post.topic_input@ == Seq::<char>::empty()
        } else {
            &&& eff == Effect::Stay
            &&& post == (App {
                screen: Screen::TopicSelect,
                topic_input: post.topic_input,
                ..pre
            })
            &&& post.topic_input@ == Seq::<char>::empty()
        },
        Key::Esc => eff == Effect::Stay && post == (App { screen: Screen::TopicSelect, ..pre }),
        Key::Char(_) | Key::Ctrl(_) | Key::Backspace | Key::Delete | Key::Left
            | Key::Right => topic_input_edited(pre, key, post, eff),
        _ => eff == Effect::Stay && post == pre,
    }
}

/// The per-topic hub: start studying, edit the cards, or drop the engine
/// and go back to topic selection.
pub open spec fn step_main_menu(pre: App, key: Key, post: App, eff: Effect) -> bool {
    eff == Effect::Stay && match key {
        Key::Char(c) | Key::Ctrl(c) => if c == 's' || c == 'S' {
            post == (App { in_edit_mode: false, screen: Screen::Mode, ..pre })
        } else if c == 'e' || c == 'E' {
            post == (App { in_edit_mode: true, screen: Screen::CardList, ..pre })
        } else if c == 'b' || c == 'B' {
            post == (App {
                eng: None::<FlashCardEngine>,
                current_topic: None::<String>,
                screen: Screen::TopicSelect,
                ..pre
            })
        } else {
            post == pre
        },
        _ => post == pre,
    }
}

/// Entering an edit screen from the card list, prefilled with the selected
/// card's question or answer.
pub open spec fn cl_edit_entry(pre: App, post: App, question: bool) -> bool {
    match pre.eng {
        Some(e) => if (pre.selected_card as int) < e.questions@.len() {
            let text = if question {
                e.questions@[pre.selected_card as int]@
            } else {
                e.answers@[pre.selected_card as int]@
            };
            &&& post == (App {
                input: post.input,
                cursor: post.cursor,
                edit_target: pre.selected_card,
                screen: if question {
                    Screen::EditQuestion
                } else {
                    Screen::EditAnswer
                },
                ..pre
            })
            &&& post.input@ == text
            &&& post.cursor == post.input@.len()
        } else {
            post == pre
        },
        None => post == pre,
    }
}

/// Appending a blank card from the card list and editing its question.
pub open spec fn cl_new_card(pre: App, post: App) -> bool {
    match pre.eng {
        Some(e) => {
            &&& (post.eng matches Some(e2) && eng_added(e, e2))
            &&& post == (App {
                eng: post.eng,
                edit_target: post.edit_target,
                selected_card: post.selected_card,
                input: post.input,
                cursor: 0,
                screen: Screen::EditQuestion,
                ..pre
            })
            &&& post.edit_target == e.questions@.len()
            &&& post.selected_card == e.questions@.len()
            &&& post.input@ == Seq::<char>::empty()
        },
        None => post == pre,
    }
}

/// Deleting the selected card (when it exists) and re-clamping the
/// selection to the shrunken list.
pub open spec fn cl_delete(pre: App, post: App) -> bool {
    match pre.eng {
        Some(e) => if (pre.selected_card as int) < e.questions@.len() {
            &&& (post.eng matches Some(e2) && eng_deleted(e, e2, pre.selected_card as int))
            &&& post == (App { eng: post.eng, selected_card: post.selected_card, ..pre })
            &&& post.selected_card == min_sel(
                pre.selected_card as int,
                e.questions@.len() - 1,
            )
        } else {
            &&& post == (App { selected_card: post.selected_card, ..pre })
            &&& post.selected_card == min_sel(
                pre.selected_card as int,
                e.questions@.len() as int,
            )
        },
        None => post == pre,
    }
}

/// The card list: move the highlight, enter an edit, append or delete a
/// card, ask for the deck to be written out, or go back to the menu.
pub open spec fn step_card_list(pre: App, key: Key, post: App, eff: Effect) -> bool {
    match key {
        Key::Up => {
            &&& eff == Effect::Stay
            &&& post == (App { selected_card: post.selected_card, ..pre })
            &&& post.selected_card == sp_prev_sel(pre.selected_card as int)
        },
        Key::Down => eff == Effect::Stay && match pre.eng {
            Some(e) => {
                &&& post == (App { selected_card: post.selected_card, ..pre })
                &&& post.selected_card == sp_next_sel(
                    pre.selected_card as int,
                    e.questions@.len() as int,
                )
            },
            None => post == pre,
        },
        Key::Char(c) | Key::Ctrl(c) => if c == 'e' || c == 'E' {
            eff == Effect::Stay && cl_edit_entry(pre, post, true)
        } else if c == 'a' || c == 'A' {
            eff == Effect::Stay && cl_edit_entry(pre, post, false)
        } else if c == 'n' || c == 'N' {
            eff == Effect::Stay && cl_new_card(pre, post)
        } else if c == 'd' || c == 'D' {
            eff == Effect::Stay && cl_delete(pre, post)
        } else if c == 's' || c == 'S' {
            post == pre && (match pre.eng {
                Some(_) => eff == Effect::SaveDeck,
                None => eff == Effect::Stay,
            })
        } else if c == 'b' || c == 'B' {
            eff == Effect::Stay && post == (App { screen: Screen::MainMenu, ..pre })
        } else {
            eff == Effect::Stay && post == pre
        },
        _ => eff == Effect::Stay && post == pre,
    }
}

/// Choosing the study mode rebuilds the order and moves to asking.
pub open spec fn mode_chosen(pre: App, post: App, random: bool) -> bool {
    match pre.eng {
        Some(e) => {
            &&& (post.eng matches Some(e2) && eng_mode_set(e, e2, random))
            &&& post == (App { eng: post.eng, screen: Screen::Ask, ..pre })
        },
        None => post == pre,
    }
}

/// The mode prompt: yes for random order, no for sequential.
pub open spec fn step_mode(pre: App, key: Key, post: App, eff: Effect) -> bool {
    eff == Effect::Stay && match key {
        Key::Char(c) | Key::Ctrl(c) => if c == 'y' || c == 'Y' {
            mode_chosen(pre, post, true)
        } else if c == 'n' || c == 'N' {
            mode_chosen(pre, post, false)
        } else {
            post == pre
        },
        _ => post == pre,
    }
}

/// The question screen: enter records the typed response (an empty one is
/// a valid response) and reveals; the review chord jumps to review; other
/// keys edit the buffer.
pub open spec fn step_ask(pre: App, key: Key, post: App, eff: Effect) -> bool {
    match key {
        Key::Enter => eff == Effect::Stay && match pre.eng {
            Some(e) => if e.current < e.order@.len() {
                let idx = e.order@[e.current as int] as int;
                &&& (post.eng matches Some(e2) && eng_recorded_text(e, e2, idx, pre.input@))
                &&& post == (App {
                    eng: post.eng,
                    input: post.input,
                    cursor: 0,
                    screen: Screen::Reveal,
                    ..pre
                })
                &&& post.input@ == Seq::<char>::empty()
            } else {
                post == pre
            },
            None => post == pre,
        },
        Key::Ctrl(c) => if c == 'r' {
            eff == Effect::Stay && post == (App { screen: Screen::Review, ..pre })
        } else {
            input_edited(pre, key, post, eff)
        },
        Key::Char(_) | Key::Backspace | Key::Delete | Key::Left | Key::Right => input_edited(
            pre,
            key,
            post,
            eff,
        ),
        _ => eff == Effect::Stay && post == pre,
    }
}

/// Advancing past the revealed card: to the next question, or to the done
/// screen when the order is exhausted.
pub open spec fn reveal_advanced(pre: App, post: App) -> bool {
    match pre.eng {
        Some(e) => (post.eng matches Some(e2) && eng_advanced(e, e2)) && (if e.current + 1
            >= e.order@.len() {
            post == (App { eng: post.eng, screen: Screen::Done, ..pre })
        } else {
            post == (App { eng: post.eng, input: post.input, screen: Screen::Ask, ..pre })
                && post.input@ == Seq::<char>::empty()
        }),
        None => post == pre,
    }
}

/// Entering an edit screen from the revealed card, prefilled with the
/// current card's question or answer; the edit targets that card's deck
/// slot.
pub open spec fn reveal_edit_entry(pre: App, post: App, question: bool) -> bool {
    match pre.eng {
        Some(e) => if e.current < e.order@.len() {
            let idx = e.order@[e.current as int] as int;
            let text = if question {
                e.questions@[idx]@
            } else {
                e.answers@[idx]@
            };
            &&& post == (App {
                input: post.input,
                cursor: post.cursor,
                edit_target: post.edit_target,
                screen: if question {
                    Screen::EditQuestion
                } else {
                    Screen::EditAnswer
                },
                ..pre
            })
            &&& post.input@ == text
            &&& post.cursor == post.input@.len()
            &&& post.edit_target as int == idx
        } else {
            post == pre
        },
        None => post == pre,
    }
}

/// The reveal screen: advance, jump to review, or edit the current card.
pub open spec fn step_reveal(pre: App, key: Key, post: App, eff: Effect) -> bool {
    eff == Effect::Stay && match key {
        Key::Enter => reveal_advanced(pre, post),
        Key::Char(c) => if c == 'n' || c == 'N' {
            reveal_advanced(pre, post)
        } else {
            post == pre
        },
        Key::Ctrl(c) => if c == 'n' || c == 'N' {
            reveal_advanced(pre, post)
        } else if c == 'r' {
            post == (App { screen: Screen::Review, ..pre })
        } else if c == 'e' {
            reveal_edit_entry(pre, post, true)
        } else if c == 'a' {
            reveal_edit_entry(pre, post, false)
        } else {
            post == pre
        },
        _ => post == pre,
    }
}

/// An edit screen: enter commits the buffer into the targeted card field,
/// escape discards, the save chord asks for the deck to be written, and
/// both routes return to where the edit began.
pub open spec fn step_edit_screen(
    pre: App,
    key: Key,
    post: App,
    eff: Effect,
    question: bool,
) -> bool {
    let route = if pre.in_edit_mode {
        Screen::CardList
    } else {
        Screen::Reveal
    };
    match key {
        Key::Enter => eff == Effect::Stay && match pre.eng {
            Some(e) => {
                &&& (post.eng matches Some(e2) && (if question {
                    eng_question_set(e, e2, pre.edit_target as int, pre.input@)
                } else {
                    eng_answer_set(e, e2, pre.edit_target as int, pre.input@)
                }))
                &&& post == (App { eng: post.eng, screen: route, ..pre })
            },
            None => post == (App { screen: route, ..pre }),
        },
        Key::Esc => eff == Effect::Stay && post == (App { screen: route, ..pre }),
        Key::Ctrl(c) => if c == 's' {
            post == pre && (match pre.eng {
                Some(_) => eff == Effect::SaveDeck,
                None => eff == Effect::Stay,
            })
        } else {
            input_edited(pre, key, post, eff)
        },
        Key::Char(_) | Key::Backspace | Key::Delete | Key::Left | Key::Right => input_edited(
            pre,
            key,
            post,
            eff,
        ),
        _ => eff == Effect::Stay && post == pre,
    }
}

/// Leaving review: back to asking while the session is unfinished, to the
/// done screen otherwise.
pub open spec fn review_back(pre: App, post: App) -> bool {
    post == (App {
        screen: match pre.eng {
            Some(e) => if e.current >= e.order@.len() {
                Screen::Done
            } else {
                Screen::Ask
            },
            None => Screen::Ask,
        },
        ..pre
    })
}

/// The review screen: scroll, or leave; the scroll offset saturates at both
/// ends.
pub open spec fn step_review(pre: App, key: Key, post: App, eff: Effect) -> bool {
    eff == Effect::Stay && match key {
        Key::Up => {
            &&& post == (App { review_scroll: post.review_scroll, ..pre })
            &&& post.review_scroll == (if pre.review_scroll > 0 {
                pre.review_scroll - 1
            } else {
                0
            })
        },
        Key::Down => {
            &&& post == (App { review_scroll: post.review_scroll, ..pre })
            &&& post.review_scroll == (if pre.review_scroll < u16::MAX {
                pre.review_scroll + 1
            } else {
                u16::MAX as int
            })
        },
        Key::Esc => review_back(pre, post),
        Key::Ctrl(c) => if c == 'b' {
            review_back(pre, post)
        } else {
            post == pre
        },
        _ => post == pre,
    }
}

/// The done screen: only re-entering review is offered.
pub open spec fn step_done(pre: App, key: Key, post: App, eff: Effect) -> bool {
    eff == Effect::Stay && match key {
        Key::Char(c) | Key::Ctrl(c) => if c == 'r' || c == 'R' {
            post == (App { screen: Screen::Review, ..pre })
        } else {
            post == pre
        },
        _ => post == pre,
    }
}

/// The quit guard: yes ends the process; no restores exactly the screen
/// the guard was raised from.
pub open spec fn step_confirm_quit(pre: App, key: Key, post: App, eff: Effect) -> bool {
    match key {
        Key::Char(c) | Key::Ctrl(c) => if c == 'y' || c == 'Y' {
            eff == Effect::Quit && post == pre
        } else if c == 'n' || c == 'N' {
            eff == Effect::Stay && post == (App {
                screen: match pre.prev_screen {
                    Some(p) => p,
                    None => pre.screen,
                },
                prev_screen: None::<Screen>,
                ..pre
            })
        } else {
            eff == Effect::Stay && post == pre
        },
        _ => eff == Effect::Stay && post == pre,
    }
}

/// The whole transition relation: the quit chord is intercepted on every
/// screen; otherwise the active screen's own relation applies.
pub open spec fn step(pre: App, key: Key, post: App, eff: Effect) -> bool {
    if is_quit_chord(key) {
        eff == Effect::Stay && post == (App {
            prev_screen: Some(pre.screen),
            screen: Screen::ConfirmQuit,
            ..pre
        })
    } else {
        match pre.screen {
            Screen::TopicSelect => step_topic_select(pre, key, post, eff),
            Screen::TopicCreate => step_topic_create(pre, key, post, eff),
            Screen::MainMenu => step_main_menu(pre, key, post, eff),
            Screen::CardList => step_card_list(pre, key, post, eff),
            Screen::Mode => step_mode(pre, key, post, eff),
            Screen::Ask => step_ask(pre, key, post, eff),
            Screen::Reveal => step_reveal(pre, key, post, eff),
            Screen::Review => step_review(pre, key, post, eff),
            Screen::EditQuestion => step_edit_screen(pre, key, post, eff, true),
            Screen::EditAnswer => step_edit_screen(pre, key, post, eff, false),
            Screen::Done => step_done(pre, key, post, eff),
            Screen::ConfirmQuit => step_confirm_quit(pre, key, post, eff),
        }
    }
}

impl App {
    /// One step of the navigation machine: applies the key to the active
    /// screen and reports what outside work, if any, the caller must do.
    pub fn handle(&mut self, key: Key) -> (eff: Effect)
        requires
            old(self).wf(),
        ensures
            final(self).wf(),
            step(*old(self), key, *final(self), eff),
    {
        if let Key::Ctrl(c) = key {
            if c == 'q' {
                self.prev_screen = Some(self.screen);
                self.screen = Screen::ConfirmQuit;
                return Effect::Stay;
            }
        }
        match self.screen {
            Screen::TopicSelect => self.handle_topic_select(key),
            Screen::TopicCreate => self.handle_topic_create(key),
            Screen::MainMenu => self.handle_main_menu(key),
            Screen::CardList => self.handle_card_list(key),
            Screen::Mode => self.handle_mode(key),
            Screen::Ask => self.handle_ask(key),
            Screen::Reveal => self.handle_reveal(key),
            Screen::Review => self.handle_review(key),
            Screen::EditQuestion => self.handle_edit(key, true),
            Screen::EditAnswer => self.handle_edit(key, false),
            Screen::Done => self.handle_done(key),
            Screen::ConfirmQuit => self.handle_confirm_quit(key),
        }
    }

    fn handle_topic_select(&mut self, key: Key) -> (eff: Effect)
        requires
            old(self).wf(),
            old(self).screen is TopicSelect,
        ensures
            final(self).wf(),
            step_topic_select(*old(self), key, *final(self), eff),
    {
        match key {
            Key::Up => {
                self.selected_topic = if self.selected_topic > 0 {
                    self.selected_topic - 1
                } else {
                    0
                };
                Effect::Stay
            },
            Key::Down => {
                let len = self.topics.len();
                self.selected_topic = if len > 0 {
                    min_usize(self.selected_topic + 1, len - 1)
                } else {
                    0
                };
                Effect::Stay
            },
            Key::Enter => {
                if self.topics.len() > 0 {
                    let name = self.topics[self.selected_topic].clone();
                    Effect::OpenTopic { name, register: false }
                } else {
                    Effect::Stay
                }
            },
            Key::Char(c) | Key::Ctrl(c) => {
                if c == 'c' || c == 'C' {
                    self.topic_input.clear();
                    self.cursor = 0;
                    self.screen = Screen::TopicCreate;
                }
                Effect::Stay
            },
            _ => Effect::Stay,
        }
    }

    fn handle_topic_create(&mut self, key: Key) -> (eff: Effect)
        requires
            old(self).wf(),
            old(self).screen is TopicCreate,
        ensures
            final(self).wf(),
            step_topic_create(*old(self), key, *final(self), eff),
    {
        match key {
            Key::Enter => {
                let trimmed = trim_chars(&self.topic_input);
                if trimmed.len() > 0 {
                    let name = chars_to_string(&self.topic_input);
                    self.topic_input.clear();
                    Effect::OpenTopic { name, register: true }
                } else {
                    self.topic_input.clear();
                    self.screen = Screen::TopicSelect;
                    Effect::Stay
                }
            },
            Key::Esc => {
                self.screen = Screen::TopicSelect;
                Effect::Stay
            },
            Key::Char(_) | Key::Ctrl(_) | Key::Backspace | Key::Delete | Key::Left
                | Key::Right => {
                apply_edit_key(&mut self.topic_input, &mut self.cursor, key);
                Effect::Stay
            },
            _ => Effect::Stay,
        }
    }

    fn handle_main_menu(&mut self, key: Key) -> (eff: Effect)
        requires
            old(self).wf(),
            old(self).screen is MainMenu,
        ensures
            final(self).wf(),
            step_main_menu(*old(self), key, *final(self), eff),
    {
        match key {
            Key::Char(c) | Key::Ctrl(c) => {
                if c == 's' || c == 'S' {
                    self.in_edit_mode = false;
                    self.screen = Screen::Mode;
                } else if c == 'e' || c == 'E' {
                    self.in_edit_mode = true;
                    self.screen = Screen::CardList;
                } else if c == 'b' || c == 'B' {
                    self.eng = None;
                    self.current_topic = None;
                    self.screen = Screen::TopicSelect;
                }
                Effect::Stay
            },
            _ => Effect::Stay,
        }
    }

    fn handle_card_list(&mut self, key: Key) -> (eff: Effect)
        requires
            old(self).wf(),
            old(self).screen is CardList,
        ensures
            final(self).wf(),
            step_card_list(*old(self), key, *final(self), eff),
    {
        match key {
            Key::Up => {
                self.selected_card = if self.selected_card > 0 {
                    self.selected_card - 1
                } else {
                    0
                };
                Effect::Stay
            },
            Key::Down => {
                let mut len: Option<usize> = None;
                match &self.eng {
                    Some(e) => {
                        len = Some(e.questions.len());
                    },
                    None => {},
                }
                if let Some(n) = len {
                    self.selected_card = if n > 0 {
                        min_usize(self.selected_card + 1, n - 1)
                    } else {
                        0
                    };
                }
                Effect::Stay
            },
            Key::Char(c) | Key::Ctrl(c) => {
                if c == 'e' || c == 'E' {
                    self.card_list_edit(true);
                    Effect::Stay
                } else if c == 'a' || c == 'A' {
                    self.card_list_edit(false);
                    Effect::Stay
                } else if c == 'n' || c == 'N' {
                    self.card_list_new();
                    Effect::Stay
                } else if c == 'd' || c == 'D' {
                    self.card_list_delete();
                    Effect::Stay
                } else if c == 's' || c == 'S' {
                    match &self.eng {
                        Some(_) => Effect::SaveDeck,
                        None => Effect::Stay,
                    }
                } else if c == 'b' || c == 'B' {
                    self.screen = Screen::MainMenu;
                    Effect::Stay
                } else {
                    Effect::Stay
                }
            },
            _ => Effect::Stay,
        }
    }

    fn card_list_edit(&mut self, question: bool)
        requires
            old(self).wf(),
            old(self).screen is CardList,
        ensures
            final(self).wf(),
            cl_edit_entry(*old(self), *final(self), question),
    {
        let mut entry: Option<Vec<char>> = None;
        match &self.eng {
            Some(e) => {
                if self.selected_card < e.questions.len() {
                    proof {
                        assert(e.answers@.len() == e.questions@.len());
                    }
                    let text = if question {
                        str_chars(e.questions[self.selected_card].as_str())
                    } else {
                        str_chars(e.answers[self.selected_card].as_str())
                    };
                    entry = Some(text);
                }
            },
            None => {},
        }
        if let Some(cs) = entry {
            self.edit_target = self.selected_card;
            self.cursor = cs.len();
            self.input = cs;
            self.screen = if question {
                Screen::EditQuestion
            } else {
                Screen::EditAnswer
            };
        }
    }

    fn card_list_new(&mut self)
        requires
            old(self).wf(),
            old(self).screen is CardList,
        ensures
            final(self).wf(),
            cl_new_card(*old(self), *final(self)),
    {
        let mut new_len: Option<usize> = None;
        match &mut self.eng {
            Some(e) => {
                e.add_card();
                new_len = Some(e.questions.len());
            },
            None => {},
        }
        if let Some(n) = new_len {
            self.edit_target = n - 1;
            self.selected_card = n - 1;
            self.input.clear();
            self.cursor = 0;
            self.screen = Screen::EditQuestion;
        }
    }

    fn card_list_delete(&mut self)
        requires
            old(self).wf(),
            old(self).screen is CardList,
        ensures
            final(self).wf(),
            cl_delete(*old(self), *final(self)),
    {
        let mut new_len: Option<usize> = None;
        match &mut self.eng {
            Some(e) => {
                if self.selected_card < e.questions.len() {
                    e.delete_card(self.selected_card);
                }
                new_len = Some(e.questions.len());
            },
            None => {},
        }
        if let Some(n) = new_len {
            self.selected_card = min_usize(self.selected_card, max_usize(n, 1) - 1);
        }
    }

    fn handle_mode(&mut self, key: Key) -> (eff: Effect)
        requires
            old(self).wf(),
            old(self).screen is Mode,
        ensures
            final(self).wf(),
            step_mode(*old(self), key, *final(self), eff),
    {
        match key {
            Key::Char(c) | Key::Ctrl(c) => {
                if c == 'y' || c == 'Y' {
                    self.choose_mode(true);
                } else if c == 'n' || c == 'N' {
                    self.choose_mode(false);
                }
                Effect::Stay
            },
            _ => Effect::Stay,
        }
    }

    fn choose_mode(&mut self, random: bool)
        requires
            old(self).wf(),
        ensures
            final(self).wf(),
            mode_chosen(*old(self), *final(self), random),
    {
        let mut started = false;
        match &mut self.eng {
            Some(e) => {
                e.set_mode(random);
                started = true;
            },
            None => {},
        }
        if started {
            self.screen = Screen::Ask;
        }
    }

    fn handle_ask(&mut self, key: Key) -> (eff: Effect)
        requires
            old(self).wf(),
            old(self).screen is Ask,
        ensures
            final(self).wf(),
            step_ask(*old(self), key, *final(self), eff),
    {
        match key {
            Key::Enter => {
                let mut recorded = false;
                match &mut self.eng {
                    Some(e) => {
                        if e.current < e.order.len() {
                            let idx = e.order[e.current];
                            proof {
                                assert(e.questions.len() == e.questions@.len());
                                lemma_perm_range(e.order@, e.questions@.len() as nat);
                            }
                            let resp = chars_to_string(&self.input);
                            e.record(idx, resp);
                            recorded = true;
                        }
                    },
                    None => {},
                }
                if recorded {
                    self.input.clear();
                    self.cursor = 0;
                    self.screen = Screen::Reveal;
                }
                Effect::Stay
            },
            Key::Ctrl(c) => {
                if c == 'r' {
                    self.screen = Screen::Review;
                    Effect::Stay
                } else {
                    apply_edit_key(&mut self.input, &mut self.cursor, key);
                    Effect::Stay
                }
            },
            Key::Char(_) | Key::Backspace | Key::Delete | Key::Left | Key::Right => {
                apply_edit_key(&mut self.input, &mut self.cursor, key);
                Effect::Stay
            },
            _ => Effect::Stay,
        }
    }

    fn handle_reveal(&mut self, key: Key) -> (eff: Effect)
        requires
            old(self).wf(),
            old(self).screen is Reveal,
        ensures
            final(self).wf(),
            step_reveal(*old(self), key, *final(self), eff),
    {
        match key {
            Key::Enter => {
                self.reveal_advance();
                Effect::Stay
            },
            Key::Char(c) => {
                if c == 'n' || c == 'N' {
                    self.reveal_advance();
                }
                Effect::Stay
            },
            Key::Ctrl(c) => {
                if c == 'n' || c == 'N' {
                    self.reveal_advance();
                } else if c == 'r' {
                    self.screen = Screen::Review;
                } else if c == 'e' {
                    self.reveal_edit(true);
                } else if c == 'a' {
                    self.reveal_edit(false);
                }
                Effect::Stay
            },
            _ => Effect::Stay,
        }
    }

    fn reveal_advance(&mut self)
        requires
            old(self).wf(),
            old(self).screen_ok(Screen::Reveal),
        ensures
            final(self).wf(),
            reveal_advanced(*old(self), *final(self)),
    {
        let mut advanced = false;
        let mut now_done = false;
        match &mut self.eng {
            Some(e) => {
                proof {
                    assert(e.order.len() == e.order@.len());
                }
                e.next();
                advanced = true;
                now_done = e.done();
            },
            None => {},
        }
        if advanced {
            if now_done {
                self.screen = Screen::Done;
            } else {
                self.input.clear();
                self.screen = Screen::Ask;
            }
        }
    }

    fn reveal_edit(&mut self, question: bool)
        requires
            old(self).wf(),
            old(self).screen is Reveal,
        ensures
            final(self).wf(),
            reveal_edit_entry(*old(self), *final(self), question),
    {
        let mut entry: Option<(Vec<char>, usize)> = None;
        match &self.eng {
            Some(e) => {
                if e.current < e.order.len() {
                    let idx = e.order[e.current];
                    proof {
                        assert(e.questions.len() == e.questions@.len());
                        lemma_perm_range(e.order@, e.questions@.len() as nat);
                        assert(e.answers@.len() == e.questions@.len());
                    }
                    let text = if question {
                        str_chars(e.questions[idx].as_str())
                    } else {
                        str_chars(e.answers[idx].as_str())
                    };
                    entry = Some((text, idx));
                }
            },
            None => {},
        }
        if let Some((cs, idx)) = entry {
            self.cursor = cs.len();
            self.input = cs;
            self.edit_target = idx;
            self.screen = if question {
                Screen::EditQuestion
            } else {
                Screen::EditAnswer
            };
        }
    }

    fn handle_edit(&mut self, key: Key, question: bool) -> (eff: Effect)
        requires
            old(self).wf(),
            old(self).screen is EditQuestion || old(self).screen is EditAnswer,
        ensures
            final(self).wf(),
            step_edit_screen(*old(self), key, *final(self), eff, question),
    {
        match key {
            Key::Enter => {
                let text = chars_to_string(&self.input);
                match &mut self.eng {
                    Some(e) => {
                        proof {
                            assert(e.answers@.len() == e.questions@.len());
                        }
                        if question {
                            e.set_question_text(self.edit_target, text);
                        } else {
                            e.set_answer_text(self.edit_target, text);
                        }
                    },
                    None => {},
                }
                self.screen = if self.in_edit_mode {
                    Screen::CardList
                } else {
                    Screen::Reveal
                };
                Effect::Stay
            },
            Key::Esc => {
                self.screen = if self.in_edit_mode {
                    Screen::CardList
                } else {
                    Screen::Reveal
                };
                Effect::Stay
            },
            Key::Ctrl(c) => {
                if c == 's' {
                    match &self.eng {
                        Some(_) => Effect::SaveDeck,
                        None => Effect::Stay,
                    }
                } else {
                    apply_edit_key(&mut self.input, &mut self.cursor, key);
                    Effect::Stay
                }
            },
            Key::Char(_) | Key::Backspace | Key::Delete | Key::Left | Key::Right => {
                apply_edit_key(&mut self.input, &mut self.cursor, key);
                Effect::Stay
            },
            _ => Effect::Stay,
        }
    }

    fn handle_review(&mut self, key: Key) -> (eff: Effect)
        requires
            old(self).wf(),
            old(self).screen is Review,
        ensures
            final(self).wf(),
            step_review(*old(self), key, *final(self), eff),
    {
        match key {
            Key::Up => {
                self.review_scroll = if self.review_scroll > 0 {
                    self.review_scroll - 1
                } else {
                    0
                };
                Effect::Stay
            },
            Key::Down => {
                self.review_scroll = if self.review_scroll < u16::MAX {
                    self.review_scroll + 1
                } else {
                    u16::MAX
                };
                Effect::Stay
            },
            Key::Esc => {
                self.review_leave();
                Effect::Stay
            },
            Key::Ctrl(c) => {
                if c == 'b' {
                    self.review_leave();
                }
                Effect::Stay
            },
            _ => Effect::Stay,
        }
    }

    fn review_leave(&mut self)
        requires
            old(self).wf(),
        ensures
            final(self).wf(),
            review_back(*old(self), *final(self)),
    {
        let mut finished = false;
        match &self.eng {
            Some(e) => {
                finished = e.done();
            },
            None => {},
        }
        self.screen = if finished {
            Screen::Done
        } else {
            Screen::Ask
        };
    }

    fn handle_done(&mut self, key: Key) -> (eff: Effect)
        requires
            old(self).wf(),
            old(self).screen is Done,
        ensures
            final(self).wf(),
            step_done(*old(self), key, *final(self), eff),
    {
        match key {
            Key::Char(c) | Key::Ctrl(c) => {
                if c == 'r' || c == 'R' {
                    self.screen = Screen::Review;
                }
                Effect::Stay
            },
            _ => Effect::Stay,
        }
    }

    fn handle_confirm_quit(&mut self, key: Key) -> (eff: Effect)
        requires
            old(self).wf(),
            old(self).screen is ConfirmQuit,
        ensures
            final(self).wf(),
            step_confirm_quit(*old(self), key, *final(self), eff),
    {
        match key {
            Key::Char(c) | Key::Ctrl(c) => {
                if c == 'y' || c == 'Y' {
                    Effect::Quit
                } else if c == 'n' || c == 'N' {
                    match self.prev_screen {
                        Some(p) => {
                            self.screen = p;
                        },
                        None => {},
                    }
                    self.prev_screen = None;
                    Effect::Stay
                } else {
                    Effect::Stay
                }
            },
            _ => Effect::Stay,
        }
    }
}

} // verus!

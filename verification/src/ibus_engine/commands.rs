//! Commands for the engine, sent from the listener and carried out on the main loop.
//!
//! A command names the engine that it is meant for. It is carried out only while that engine is
//! the current one.

use vstd::prelude::*;
use vstd::string::*;

verus! {

/// Something to be done with an engine.
pub enum EngineCommand {
    UpdatePreedit { engine_id: u64, text: String, cursor_pos: u32 },
    HidePreedit { engine_id: u64 },
    CommitText { engine_id: u64, text: String },
}

/// What a command holds.
pub enum CommandView {
    UpdatePreedit { engine_id: u64, text: Seq<char>, cursor_pos: u32 },
    HidePreedit { engine_id: u64 },
    CommitText { engine_id: u64, text: Seq<char> },
}

impl View for EngineCommand {
    type V = CommandView;

    open spec fn view(&self) -> CommandView {
        match *self {
            EngineCommand::UpdatePreedit { engine_id, text, cursor_pos } => {
                CommandView::UpdatePreedit { engine_id, text: text@, cursor_pos }
            },
            EngineCommand::HidePreedit { engine_id } => CommandView::HidePreedit { engine_id },
            EngineCommand::CommitText { engine_id, text } => CommandView::CommitText {
                engine_id,
                text: text@,
            },
        }
    }
}

/// The engine that a command is meant for.
pub open spec fn target(c: CommandView) -> u64 {
    match c {
        CommandView::UpdatePreedit { engine_id, .. } => engine_id,
        CommandView::HidePreedit { engine_id } => engine_id,
        CommandView::CommitText { engine_id, .. } => engine_id,
    }
}

/// A call that the engine gets.
pub enum EngineAction {
    Show { text: String, cursor_pos: u32 },
    Hide,
    Commit { text: String },
}

/// What a call holds.
pub enum ActionView {
    Show { text: Seq<char>, cursor_pos: u32 },
    Hide,
    Commit { text: Seq<char> },
}

impl View for EngineAction {
    type V = ActionView;

    open spec fn view(&self) -> ActionView {
        match *self {
            EngineAction::Show { text, cursor_pos } => ActionView::Show { text: text@, cursor_pos },
            EngineAction::Hide => ActionView::Hide,
            EngineAction::Commit { text } => ActionView::Commit { text: text@ },
        }
    }
}

/// What a list of commands holds.
pub open spec fn command_views(v: Seq<EngineCommand>) -> Seq<CommandView> {
    Seq::new(v.len(), |i: int| v[i]@)
}

/// What a list of calls holds.
pub open spec fn action_views(v: Seq<EngineAction>) -> Seq<ActionView> {
    Seq::new(v.len(), |i: int| v[i]@)
}

/// The calls by which a command is carried out. A commit takes the preedit away first.
pub open spec fn calls_of(c: CommandView) -> Seq<ActionView> {
    match c {
        CommandView::UpdatePreedit { text, cursor_pos, .. } => seq![
            ActionView::Show { text, cursor_pos },
        ],
        CommandView::HidePreedit { .. } => seq![ActionView::Hide],
        CommandView::CommitText { text, .. } => seq![ActionView::Hide, ActionView::Commit { text }],
    }
}

/// The calls by which the commands meant for an engine are carried out, in order.
pub open spec fn calls_for(commands: Seq<CommandView>, engine_id: u64) -> Seq<ActionView>
    decreases commands.len(),
{
    if commands.len() == 0 {
        Seq::empty()
    } else {
        let before = calls_for(commands.drop_last(), engine_id);
        if target(commands.last()) == engine_id {
            before + calls_of(commands.last())
        } else {
            before
        }
    }
}

/// The commands that are not meant for an engine, in order.
pub open spec fn for_others(commands: Seq<CommandView>, engine_id: u64) -> Seq<CommandView> {
    commands.filter(|c: CommandView| target(c) != engine_id)
}

/// The texts that are to be committed to an engine, in order.
pub open spec fn commits_for(commands: Seq<CommandView>, engine_id: u64) -> Seq<Seq<char>>
    decreases commands.len(),
{
    if commands.len() == 0 {
        Seq::empty()
    } else {
        let before = commits_for(commands.drop_last(), engine_id);
        match commands.last() {
            CommandView::CommitText { engine_id: id, text } => if id == engine_id {
                before.push(text)
            } else {
                before
            },
            _ => before,
        }
    }
}

/// The command takes an engine's preedit away.
pub open spec fn hides(c: CommandView, engine_id: u64) -> bool {
    target(c) == engine_id && !(c is UpdatePreedit)
}

/// Some command takes an engine's preedit away.
pub open spec fn hide_asked(commands: Seq<CommandView>, engine_id: u64) -> bool {
    exists|i: int| 0 <= i < commands.len() && hides(#[trigger] commands[i], engine_id)
}

/// What is done with an engine that is being disabled.
pub struct DisableDrain {
    pub hide_preedit: bool,
    pub commits: Vec<String>,
}

/// The commands that have been sent and not yet carried out.
pub struct CommandQueue {
    commands: Vec<EngineCommand>,
}

impl View for CommandQueue {
    type V = Seq<CommandView>;

    closed spec fn view(&self) -> Seq<CommandView> {
        command_views(self.commands@)
    }
}

impl CommandQueue {
    /// An empty queue.
    pub fn new() -> (r: CommandQueue)
        ensures
            r@ == Seq::<CommandView>::empty(),
    {
        let r = CommandQueue { commands: Vec::new() };
        assert(r@ =~= Seq::<CommandView>::empty());
        r
    }

    /// Sends a command.
    pub fn send_command(&mut self, cmd: EngineCommand)
        ensures
            final(self)@ == old(self)@.push(cmd@),
    {
        self.commands.push(cmd);
        assert(self@ =~= old(self)@.push(cmd@));
    }

    /// How many commands wait.
    pub fn len(&self) -> (n: usize)
        ensures
            n == self@.len(),
    {
        self.commands.len()
    }

    /// Takes all commands out and says how those for the current engine are carried out. The
    /// others are dropped.
    pub fn process_commands(&mut self, current_engine: Option<u64>) -> (r: Vec<EngineAction>)
        ensures
            final(self)@ == Seq::<CommandView>::empty(),
            action_views(r@) == (match current_engine {
                Some(id) => calls_for(old(self)@, id),
                None => Seq::empty(),
            }),
    {
        let mut commands: Vec<EngineCommand> = Vec::new();
        std::mem::swap(&mut commands, &mut self.commands);
        assert(self@ =~= Seq::<CommandView>::empty());
        let mut r: Vec<EngineAction> = Vec::new();
        assert(action_views(r@) =~= Seq::<ActionView>::empty());
        let id: u64 = match current_engine {
            Some(id) => id,
            None => {
                return r;
            },
        };
        let ghost all = command_views(commands@);
        let mut i: usize = 0;
        while i < commands.len()
            invariant
                i <= commands@.len(),
                all == command_views(commands@),
                action_views(r@) == calls_for(all.take(i as int), id),
            decreases commands@.len() - i,
        {
            let ghost before = r@;
            proof {
                assert(all.take(i + 1).drop_last() =~= all.take(i as int));
                assert(all.take(i + 1).last() == commands@[i as int]@);
            }
            match &commands[i] {
                EngineCommand::UpdatePreedit { engine_id, text, cursor_pos } => {
                    if *engine_id == id {
                        r.push(EngineAction::Show { text: text.clone(), cursor_pos: *cursor_pos });
                        assert(action_views(r@) =~= action_views(before) + calls_of(
                            commands@[i as int]@,
                        ));
                    }
                },
                EngineCommand::HidePreedit { engine_id } => {
                    if *engine_id == id {
                        r.push(EngineAction::Hide);
                        assert(action_views(r@) =~= action_views(before) + calls_of(
                            commands@[i as int]@,
                        ));
                    }
                },
                EngineCommand::CommitText { engine_id, text } => {
                    if *engine_id == id {
                        r.push(EngineAction::Hide);
                        r.push(EngineAction::Commit { text: text.clone() });
                        assert(action_views(r@) =~= action_views(before) + calls_of(
                            commands@[i as int]@,
                        ));
                    }
                },
            }
            i += 1;
        }
        assert(all.take(i as int) =~= all);
        r
    }

    /// Takes out the commands for an engine that is being disabled: its texts are still to be
    /// committed, its preedit updates are dropped, and the commands for other engines stay.
    pub fn drain_engine_commands_for_disable(&mut self, engine_id: u64) -> (r: DisableDrain)
        ensures
            final(self)@ == for_others(old(self)@, engine_id),
            r.hide_preedit == hide_asked(old(self)@, engine_id),
            crate::text::views(r.commits@) == commits_for(old(self)@, engine_id),
    {
        let mut pending: Vec<EngineCommand> = Vec::new();
        std::mem::swap(&mut pending, &mut self.commands);
        let ghost all = command_views(pending@);
        let mut remaining: Vec<EngineCommand> = Vec::new();
        let mut commits: Vec<String> = Vec::new();
        let mut hide_preedit = false;
        proof {
            assert(command_views(remaining@) =~= Seq::<CommandView>::empty());
            assert(all.take(0) =~= Seq::<CommandView>::empty());
            reveal(Seq::filter);
            assert(crate::text::views(commits@) =~= Seq::<Seq<char>>::empty());
        }
        for cmd in it: pending
            invariant
                all == command_views(it.seq()),
                command_views(remaining@) == for_others(all.take(it.index() as int), engine_id),
                crate::text::views(commits@) == commits_for(
                    all.take(it.index() as int),
                    engine_id,
                ),
                hide_preedit == hide_asked(all.take(it.index() as int), engine_id),
        {
            let ghost i = it.index() as int;
            let ghost before = remaining@;
            let ghost commits_before = commits@;
            let ghost taken = all.take(i + 1);
            proof {
                assert(taken.drop_last() =~= all.take(i));
                assert(taken.last() == all[i]);
                assert(all[i] == cmd@);
                reveal(Seq::filter);
                lemma_hide_step(all, i, engine_id);
            }
            match cmd {
                EngineCommand::UpdatePreedit { engine_id: id, text, cursor_pos } => {
                    if id != engine_id {
                        remaining.push(
                            EngineCommand::UpdatePreedit { engine_id: id, text, cursor_pos },
                        );
                        assert(command_views(remaining@) =~= command_views(before).push(all[i]));
                    }
                },
                EngineCommand::HidePreedit { engine_id: id } => {
                    if id == engine_id {
                        hide_preedit = true;
                    } else {
                        remaining.push(EngineCommand::HidePreedit { engine_id: id });
                        assert(command_views(remaining@) =~= command_views(before).push(all[i]));
                    }
                },
                EngineCommand::CommitText { engine_id: id, text } => {
                    if id == engine_id {
                        commits.push(text);
                        hide_preedit = true;
                        assert(crate::text::views(commits@) =~= crate::text::views(
                            commits_before,
                        ).push(text@));
                    } else {
                        remaining.push(EngineCommand::CommitText { engine_id: id, text });
                        assert(command_views(remaining@) =~= command_views(before).push(all[i]));
                    }
                },
            }
        }
        assert(all.take(all.len() as int) =~= all);
        self.commands = remaining;
        DisableDrain { hide_preedit, commits }
    }
}

proof fn lemma_hide_step(all: Seq<CommandView>, i: int, engine_id: u64)
    requires
        0 <= i < all.len(),
    ensures
        hide_asked(all.take(i + 1), engine_id) == (hide_asked(all.take(i), engine_id) || hides(
            all[i],
            engine_id,
        )),
{
    let next = all.take(i + 1);
    if hide_asked(all.take(i), engine_id) {
        let k = choose|k: int|
            0 <= k < all.take(i).len() && hides(#[trigger] all.take(i)[k], engine_id);
        assert(next[k] == all.take(i)[k]);
    }
    if hides(all[i], engine_id) {
        assert(next[i] == all[i]);
    }
    if hide_asked(next, engine_id) && !hides(all[i], engine_id) {
        let k = choose|k: int| 0 <= k < next.len() && hides(#[trigger] next[k], engine_id);
        assert(next[k] == all[k]);
        assert(k < i);
        assert(all.take(i)[k] == all[k]);
    }
}

proof fn lemma_others_keep_calls(commands: Seq<CommandView>, engine_id: u64, other: u64)
    requires
        engine_id != other,
    ensures
        calls_for(for_others(commands, engine_id), other) == calls_for(commands, other),
        commits_for(for_others(commands, engine_id), other) == commits_for(commands, other),
        commits_for(for_others(commands, engine_id), engine_id).len() == 0,
        calls_for(for_others(commands, engine_id), engine_id).len() == 0,
    decreases commands.len(),
{
    reveal(Seq::filter);
    if commands.len() > 0 {
        lemma_others_keep_calls(commands.drop_last(), engine_id, other);
        let rest = for_others(commands.drop_last(), engine_id);
        if target(commands.last()) != engine_id {
            assert(rest.push(commands.last()).drop_last() =~= rest);
        }
    }
}

/// Disabling an engine leaves nothing for it in the queue, and leaves what is to be done with any
/// other engine as it was.
pub proof fn law_disable_spares_other_engines(
    commands: Seq<CommandView>,
    engine_id: u64,
    other: u64,
)
    requires
        engine_id != other,
    ensures
        calls_for(for_others(commands, engine_id), engine_id).len() == 0,
        calls_for(for_others(commands, engine_id), other) == calls_for(commands, other),
        commits_for(for_others(commands, engine_id), other) == commits_for(commands, other),
{
    lemma_others_keep_calls(commands, engine_id, other);
}

/// The calls commit the text, as the texts to be committed say.
pub open spec fn committed(calls: Seq<ActionView>) -> Seq<Seq<char>>
    decreases calls.len(),
{
    if calls.len() == 0 {
        Seq::empty()
    } else {
        let before = committed(calls.drop_last());
        match calls.last() {
            ActionView::Commit { text } => before.push(text),
            _ => before,
        }
    }
}

proof fn lemma_committed_one(calls: Seq<ActionView>, c: CommandView)
    ensures
        committed(calls + calls_of(c)) == (match c {
            CommandView::CommitText { text, .. } => committed(calls).push(text),
            _ => committed(calls),
        }),
{
    reveal_with_fuel(committed, 3);
    let all = calls + calls_of(c);
    match c {
        CommandView::CommitText { text, .. } => {
            assert(all.drop_last() =~= calls.push(ActionView::Hide));
            assert(all.drop_last().drop_last() =~= calls);
        },
        _ => {
            assert(all.drop_last() =~= calls);
        },
    }
}

/// Every text sent to an engine is committed to it once and in order, whether the engine stays the
/// current one or is disabled.
pub proof fn law_every_text_is_committed(commands: Seq<CommandView>, engine_id: u64)
    ensures
        committed(calls_for(commands, engine_id)) == commits_for(commands, engine_id),
    decreases commands.len(),
{
    if commands.len() > 0 {
        law_every_text_is_committed(commands.drop_last(), engine_id);
        if target(commands.last()) == engine_id {
            lemma_committed_one(calls_for(commands.drop_last(), engine_id), commands.last());
        }
    }
}

/// One more command for an engine adds its calls behind those before it: a preview is shown with its
/// text and cursor, a hidden one is hidden, and a text is committed once the preview is hidden. A
/// command for another engine adds nothing.
pub proof fn law_commands_are_carried_out_in_order(
    commands: Seq<CommandView>,
    id: u64,
    other: u64,
    t: Seq<char>,
    cursor: u32,
)
    requires
        other != id,
    ensures
        calls_for(
            commands.push(CommandView::UpdatePreedit { engine_id: id, text: t, cursor_pos: cursor }),
            id,
        ) == calls_for(commands, id).push(ActionView::Show { text: t, cursor_pos: cursor }),
        calls_for(commands.push(CommandView::HidePreedit { engine_id: id }), id) == calls_for(
            commands,
            id,
        ).push(ActionView::Hide),
        calls_for(commands.push(CommandView::CommitText { engine_id: id, text: t }), id)
            == calls_for(commands, id).push(ActionView::Hide).push(ActionView::Commit { text: t }),
        calls_for(
            commands.push(
                CommandView::UpdatePreedit { engine_id: other, text: t, cursor_pos: cursor },
            ),
            id,
        ) == calls_for(commands, id),
        calls_for(commands.push(CommandView::HidePreedit { engine_id: other }), id) == calls_for(
            commands,
            id,
        ),
        calls_for(commands.push(CommandView::CommitText { engine_id: other, text: t }), id)
            == calls_for(commands, id),
        calls_for(Seq::<CommandView>::empty(), id).len() == 0,
{
    let a = CommandView::UpdatePreedit { engine_id: id, text: t, cursor_pos: cursor };
    let b = CommandView::HidePreedit { engine_id: id };
    let c = CommandView::CommitText { engine_id: id, text: t };
    let d = CommandView::UpdatePreedit { engine_id: other, text: t, cursor_pos: cursor };
    let e = CommandView::HidePreedit { engine_id: other };
    let f = CommandView::CommitText { engine_id: other, text: t };
    assert(commands.push(a).drop_last() =~= commands);
    assert(commands.push(b).drop_last() =~= commands);
    assert(commands.push(c).drop_last() =~= commands);
    assert(commands.push(d).drop_last() =~= commands);
    assert(commands.push(e).drop_last() =~= commands);
    assert(commands.push(f).drop_last() =~= commands);
    let calls = calls_for(commands, id);
    assert(calls + calls_of(a) =~= calls.push(ActionView::Show { text: t, cursor_pos: cursor }));
    assert(calls + calls_of(b) =~= calls.push(ActionView::Hide));
    assert(calls + calls_of(c) =~= calls.push(ActionView::Hide).push(
        ActionView::Commit { text: t },
    ));
}

/// When an engine is disabled, every text on its way to it is still committed, in order; its preview
/// is hidden if a text or a hiding was on its way; and every command for another engine stays in the
/// queue, in its place, while none of its own does.
pub proof fn law_disable_keeps_texts_and_others(
    commands: Seq<CommandView>,
    id: u64,
    other: u64,
    t: Seq<char>,
)
    requires
        other != id,
    ensures
        commits_for(commands.push(CommandView::CommitText { engine_id: id, text: t }), id)
            == commits_for(commands, id).push(t),
        commits_for(commands.push(CommandView::HidePreedit { engine_id: id }), id) == commits_for(
            commands,
            id,
        ),
        commits_for(commands.push(CommandView::CommitText { engine_id: other, text: t }), id)
            == commits_for(commands, id),
        hide_asked(commands.push(CommandView::CommitText { engine_id: id, text: t }), id),
        hide_asked(commands.push(CommandView::HidePreedit { engine_id: id }), id),
        hide_asked(
            commands.push(CommandView::UpdatePreedit { engine_id: id, text: t, cursor_pos: 0 }),
            id,
        ) == hide_asked(commands, id),
        hide_asked(commands.push(CommandView::HidePreedit { engine_id: other }), id) == hide_asked(
            commands,
            id,
        ),
        !hide_asked(Seq::<CommandView>::empty(), id),
        for_others(commands.push(CommandView::CommitText { engine_id: other, text: t }), id)
            == for_others(commands, id).push(CommandView::CommitText { engine_id: other, text: t }),
        for_others(commands.push(CommandView::HidePreedit { engine_id: other }), id) == for_others(
            commands,
            id,
        ).push(CommandView::HidePreedit { engine_id: other }),
        for_others(commands.push(CommandView::CommitText { engine_id: id, text: t }), id)
            == for_others(commands, id),
        for_others(commands.push(CommandView::HidePreedit { engine_id: id }), id) == for_others(
            commands,
            id,
        ),
{
    reveal(Seq::filter);
    let a = CommandView::CommitText { engine_id: id, text: t };
    let b = CommandView::HidePreedit { engine_id: id };
    let d = CommandView::CommitText { engine_id: other, text: t };
    let e = CommandView::HidePreedit { engine_id: other };
    let u = CommandView::UpdatePreedit { engine_id: id, text: t, cursor_pos: 0 };
    assert(commands.push(a).drop_last() =~= commands);
    assert(commands.push(b).drop_last() =~= commands);
    assert(commands.push(d).drop_last() =~= commands);
    assert(commands.push(e).drop_last() =~= commands);
    assert(hides(commands.push(a)[commands.len() as int], id));
    assert(hides(commands.push(b)[commands.len() as int], id));
    lemma_hide_asked_push(commands, u, id);
    lemma_hide_asked_push(commands, e, id);
}

proof fn lemma_hide_asked_push(commands: Seq<CommandView>, c: CommandView, id: u64)
    requires
        !hides(c, id),
    ensures
        hide_asked(commands.push(c), id) == hide_asked(commands, id),
{
    if hide_asked(commands, id) {
        let i = choose|i: int| 0 <= i < commands.len() && hides(#[trigger] commands[i], id);
        assert(hides(commands.push(c)[i], id));
    }
    if hide_asked(commands.push(c), id) {
        let i = choose|i: int|
            0 <= i < commands.push(c).len() && hides(#[trigger] commands.push(c)[i], id);
        assert(hides(commands[i], id));
    }
}

} // verus!

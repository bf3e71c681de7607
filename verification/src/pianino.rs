//! The text/input sandbox application: a text buffer edited from the
//! keyboard, and the triangle demo built on the first reconfigure and
//! rendered on every redraw.

use vstd::prelude::*;
use crate::gl::{Context, GlCall};
use crate::application::{EventHandler, Key, ViewConfig, KEY_BACKSPACE, KEY_RETURN};
use crate::demo::{Demo, DemoBuild};

verus! {

/// The sandbox's state: the text typed so far, the demo once it built,
/// and the build plan it will use the first time a view is configured.
pub struct Application {
    text: Vec<char>,
    demo: Option<Demo>,
    build: Option<DemoBuild>,
}

/// The text after one key event: a pressed backspace removes the last
/// character, a pressed return appends a line break, everything else
/// leaves the text alone.
pub open spec fn text_after_key(t: Seq<char>, key: Key, pressed: bool) -> Seq<char> {
    if !pressed {
        t
    } else {
        match key {
            Key::Code(code) => if code == KEY_BACKSPACE {
                if t.len() > 0 {
                    t.drop_last()
                } else {
                    t
                }
            } else if code == KEY_RETURN {
                t.push('\n')
            } else {
                t
            },
            Key::Escape => t,
        }
    }
}

/// The text after one character of input: printable characters are
/// appended, control characters dropped.
pub open spec fn text_after_input(t: Seq<char>, character: char) -> Seq<char> {
    if character as u32 >= 0x20 {
        t.push(character)
    } else {
        t
    }
}

impl Application {
    /// The text typed so far.
    pub closed spec fn spec_text(self) -> Seq<char> {
        self.text@
    }

    /// The demo, once the first reconfigure built it.
    pub closed spec fn spec_demo(self) -> Option<Demo> {
        self.demo
    }

    /// The build plan still waiting to be used.
    pub closed spec fn spec_build(self) -> Option<DemoBuild> {
        self.build
    }

    /// A fresh sandbox: the word `Text`, no demo yet, and the given
    /// build plan.
    pub fn new(build: DemoBuild) -> (a: Application)
        ensures
            a.spec_text() =~= seq!['T', 'e', 'x', 't'],
            a.spec_demo() is None,
            a.spec_build() == Option::Some(build),
    {
        let mut text: Vec<char> = Vec::new();
        text.push('T');
        text.push('e');
        text.push('x');
        text.push('t');
        proof {
            assert(text@ =~= seq!['T', 'e', 'x', 't']);
        }
        Application { text, demo: Option::None, build: Option::Some(build) }
    }

    /// The current text.
    pub fn text(&self) -> (t: &Vec<char>)
        ensures
            t@ == self.spec_text(),
    {
        &self.text
    }

    /// Is the demo built?
    pub fn has_demo(&self) -> (r: bool)
        ensures
            r == (self.spec_demo() is Some),
    {
        self.demo.is_some()
    }

    /// Appends printable input to the text.
    fn apply_input(&mut self, character: char)
        ensures
            final(self).spec_text() == text_after_input(old(self).spec_text(), character),
            final(self).spec_demo() == old(self).spec_demo(),
            final(self).spec_build() == old(self).spec_build(),
    {
        if character as u32 >= 0x20 {
            self.text.push(character);
        }
    }

    /// Edits the text for one key event.
    fn apply_key(&mut self, key: Key, pressed: bool)
        ensures
            final(self).spec_text() == text_after_key(old(self).spec_text(), key, pressed),
            final(self).spec_demo() == old(self).spec_demo(),
            final(self).spec_build() == old(self).spec_build(),
    {
        if pressed {
            match key {
                Key::Code(code) => {
                    if code == KEY_BACKSPACE {
                        let _ = self.text.pop();
                    } else if code == KEY_RETURN {
                        self.text.push('\n');
                    }
                },
                Key::Escape => {},
            }
        }
    }

    /// Builds the demo from the stored plan, the first time a view is
    /// configured.  A failed build consumes the plan and leaves the
    /// sandbox demo-less; the diagnostic was already surfaced by the
    /// build itself.
    fn ensure_demo(&mut self, gl: &mut Context)
        requires
            old(gl).wf(),
        ensures
            final(gl).extends(*old(gl)),
            final(self).spec_text() == old(self).spec_text(),
            old(self).spec_demo() is Some ==> final(self).spec_demo() == old(self).spec_demo()
                && final(gl).log() == old(gl).log(),
            old(self).spec_demo() is None && old(self).spec_build() is None
                ==> final(self).spec_demo() is None && final(gl).log() == old(gl).log(),
            old(self).spec_demo() is None ==> (old(self).spec_build() matches Option::Some(plan)
                ==> final(self).spec_build() is None && (final(self).spec_demo() is Some <==> (
            plan.vertex_compile is Success && plan.fragment_compile is Success && plan.link
                is Success))),
    {
        if self.demo.is_none() {
            let taken = self.build.take();
            match taken {
                Option::Some(plan) => {
                    match Demo::new(gl, plan) {
                        Ok(d) => {
                            self.demo = Option::Some(d);
                        },
                        Err(_diagnostic) => {},
                    }
                },
                Option::None => {
                    proof {
                        lemma_unchanged_extends(*gl);
                    }
                },
            }
        } else {
            proof {
                lemma_unchanged_extends(*gl);
            }
        }
    }
}

/// A context extends itself.
proof fn lemma_unchanged_extends(gl: Context)
    requires
        gl.wf(),
    ensures
        gl.extends(gl),
{
    assert(gl.log() =~= gl.log().subrange(0, gl.log().len() as int));
}

impl EventHandler for Application {
    fn input(&mut self, character: char) {
        self.apply_input(character);
    }

    fn key(&mut self, key: Key, pressed: bool) {
        self.apply_key(key, pressed);
    }

    fn reconf(&mut self, _conf: ViewConfig, gl: &mut Context) {
        self.ensure_demo(gl);
    }

    fn redraw(&mut self, gl: &mut Context) {
        gl.clear(crate::gl::COLOR_BUFFER_BIT | crate::gl::STENCIL_BUFFER_BIT);
        let ghost cleared: Context = *gl;
        match &self.demo {
            Option::Some(d) => {
                if d.check_valid(gl) {
                    d.render(gl);
                } else {
                }
            },
            Option::None => {
            },
        }
        proof {
            assert(cleared.log() =~= old(gl).log() + seq![
                GlCall::Clear {
                    mask: crate::gl::COLOR_BUFFER_BIT | crate::gl::STENCIL_BUFFER_BIT,
                },
            ]);
            crate::gl::lemma_log_grew(old(gl).log(), cleared.log());
            assert(gl.log() == cleared.log() || exists|s: Seq<GlCall>|
                gl.log() == cleared.log() + s);
            if gl.log() == cleared.log() {
                assert(gl.log() =~= cleared.log() + Seq::<GlCall>::empty());
            }
            crate::gl::lemma_log_grew(cleared.log(), gl.log());
            crate::gl::lemma_prefix_transitive(old(gl).log(), cleared.log(), gl.log());
        }
    }

}

} // verus!

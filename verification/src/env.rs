//! The part of the host's environment that is handed on to the container.

use vstd::prelude::*;
use crate::error::ToolboxError;
use crate::error::ToolboxErrorView;
use crate::host::EnvValue;
use crate::host::EnvValueView;
use crate::text::push_str;
use crate::text::push_text;

verus! {

/// The variables that are handed on, where they are set.
pub open spec fn preserved_env() -> Seq<Seq<char>> {
    seq![
        "COLORTERM"@,
        "DBUS_SESSION_BUS_ADDRESS"@,
        "DESKTOP_SESSION"@,
        "DISPLAY"@,
        "USER"@,
        "LANG"@,
        "SSH_AUTH_SOCK"@,
        "TERM"@,
        "VTE_VERSION"@,
        "XDG_CURRENT_DESKTOP"@,
        "XDG_DATA_DIRS"@,
        "XDG_MENU_PREFIX"@,
        "XDG_RUNTIME_DIR"@,
        "XDG_SEAT"@,
        "XDG_SESSION_DESKTOP"@,
        "XDG_SESSION_ID"@,
        "XDG_SESSION_TYPE"@,
        "XDG_VTNR"@,
        "WAYLAND_DISPLAY"@,
    ]
}

/// The variables that are handed on, where they are set.
pub fn preserved_names() -> (names: Vec<String>)
    ensures
        names.deep_view() == preserved_env(),
{
    let mut names: Vec<String> = Vec::new();
    assert(names.deep_view() =~= Seq::<Seq<char>>::empty());
    push_str(&mut names, "COLORTERM");
    push_str(&mut names, "DBUS_SESSION_BUS_ADDRESS");
    push_str(&mut names, "DESKTOP_SESSION");
    push_str(&mut names, "DISPLAY");
    push_str(&mut names, "USER");
    push_str(&mut names, "LANG");
    push_str(&mut names, "SSH_AUTH_SOCK");
    push_str(&mut names, "TERM");
    push_str(&mut names, "VTE_VERSION");
    push_str(&mut names, "XDG_CURRENT_DESKTOP");
    push_str(&mut names, "XDG_DATA_DIRS");
    push_str(&mut names, "XDG_MENU_PREFIX");
    push_str(&mut names, "XDG_RUNTIME_DIR");
    push_str(&mut names, "XDG_SEAT");
    push_str(&mut names, "XDG_SESSION_DESKTOP");
    push_str(&mut names, "XDG_SESSION_ID");
    push_str(&mut names, "XDG_SESSION_TYPE");
    push_str(&mut names, "XDG_VTNR");
    push_str(&mut names, "WAYLAND_DISPLAY");
    assert(names.deep_view() =~= preserved_env());
    names
}

/// A variable of the environment and what a lookup of it gave.
#[derive(Debug, PartialEq, Eq)]
pub struct EnvVar {
    pub name: String,
    pub value: EnvValue,
}

/// An `EnvVar` with its texts as sequences of characters.
pub struct EnvVarView {
    pub name: Seq<char>,
    pub value: EnvValueView,
}

impl View for EnvVar {
    type V = EnvVarView;

    open spec fn view(&self) -> EnvVarView {
        EnvVarView { name: self.name@, value: self.value@ }
    }
}

impl DeepView for EnvVar {
    type V = EnvVarView;

    open spec fn deep_view(&self) -> EnvVarView {
        self@
    }
}

/// The flag that sets the variable `name` to `value` in the container.
pub open spec fn env_flag(name: Seq<char>, value: Seq<char>) -> Seq<char> {
    "--env="@ + name + "="@ + value
}

/// The flags that hand `vars` on, in order: one for each variable that is
/// set, none for one that is not. The first variable that is set to
/// something other than Unicode text is a failure.
pub open spec fn env_flags(vars: Seq<EnvVarView>) -> Result<Seq<Seq<char>>, ToolboxErrorView>
    decreases vars.len(),
{
    if vars.len() == 0 {
        Ok(Seq::empty())
    } else {
        match env_flags(vars.drop_last()) {
            Err(e) => Err(e),
            Ok(flags) => match vars.last().value {
                EnvValueView::Unset => Ok(flags),
                EnvValueView::NotUnicode => Err(
                    ToolboxErrorView::PreservedNotUnicode { name: vars.last().name },
                ),
                EnvValueView::Text(value) => Ok(flags.push(env_flag(vars.last().name, value))),
            },
        }
    }
}

/// The view of a list of texts or of the failure in its place.
pub open spec fn list_result_view(r: Result<Vec<String>, ToolboxError>) -> Result<
    Seq<Seq<char>>,
    ToolboxErrorView,
> {
    match r {
        Ok(v) => Ok(v.deep_view()),
        Err(e) => Err(e@),
    }
}

/// The flags that hand `vars` on: see `env_flags`.
pub fn env_args(vars: &Vec<EnvVar>) -> (r: Result<Vec<String>, ToolboxError>)
    ensures
        list_result_view(r) == env_flags(vars.deep_view()),
{
    let mut flags: Vec<String> = Vec::new();
    let mut i: usize = 0;
    assert(flags.deep_view() =~= Seq::<Seq<char>>::empty());
    assert(vars.deep_view().subrange(0, 0) =~= Seq::<EnvVarView>::empty());
    while i < vars.len()
        invariant
            i <= vars.len(),
            env_flags(vars.deep_view().subrange(0, i as int)) == Ok::<
                Seq<Seq<char>>,
                ToolboxErrorView,
            >(flags.deep_view()),
        decreases vars.len() - i,
    {
        let var = &vars[i];
        proof {
            let next = vars.deep_view().subrange(0, i + 1);
            assert(next.drop_last() =~= vars.deep_view().subrange(0, i as int));
            assert(next.last() == var@);
        }
        match &var.value {
            EnvValue::Unset => {},
            EnvValue::NotUnicode => {
                proof {
                    lemma_env_flags_failure_stays(vars.deep_view(), i + 1);
                }
                return Err(ToolboxError::PreservedNotUnicode { name: var.name.clone() });
            },
            EnvValue::Text(value) => {
                let mut flag = String::from_str("--env=");
                flag.append(var.name.as_str());
                flag.append("=");
                flag.append(value.as_str());
                push_text(&mut flags, flag);
            },
        }
        i += 1;
    }
    assert(vars.deep_view().subrange(0, vars.len() as int) =~= vars.deep_view());
    Ok(flags)
}

/// A failure among the first `n` variables is the failure of the whole list.
pub proof fn lemma_env_flags_failure_stays(vars: Seq<EnvVarView>, n: int)
    requires
        0 <= n <= vars.len(),
        env_flags(vars.subrange(0, n)) is Err,
    ensures
        env_flags(vars) == env_flags(vars.subrange(0, n)),
    decreases vars.len() - n,
{
    if n < vars.len() {
        assert(vars.subrange(0, n + 1).drop_last() =~= vars.subrange(0, n));
        lemma_env_flags_failure_stays(vars, n + 1);
    } else {
        assert(vars.subrange(0, n) =~= vars);
    }
}

} // verus!

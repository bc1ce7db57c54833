//! Textual templates written into a freshly scaffolded project.

use vstd::prelude::*;

verus! {

/// The project manifest naming the mod and its main class.
pub fn mod_json(id: &str, main_class: &str) -> (r: String)
    ensures
        r@ == "{\n  \"id\": \""@ + id@ + "\",\n  \"mainClass\": \""@ + main_class@ + "\"\n}\n"@,
{
    let mut s = String::from_str("{\n  \"id\": \"");
    s.append(id);
    s.append("\",\n  \"mainClass\": \"");
    s.append(main_class);
    s.append("\"\n}\n");
    proof {
        assert(s@ =~= "{\n  \"id\": \""@ + id@ + "\",\n  \"mainClass\": \""@ + main_class@
            + "\"\n}\n"@);
    }
    s
}

/// The Gradle settings line that names the root project.
pub fn settings_gradle(name: &str) -> (r: String)
    ensures
        r@ == "rootProject.name = '"@ + name@ + "'\n"@,
{
    let mut s = String::from_str("rootProject.name = '");
    s.append(name);
    s.append("'\n");
    proof {
        assert(s@ =~= "rootProject.name = '"@ + name@ + "'\n"@);
    }
    s
}

} // verus!

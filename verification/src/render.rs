//! Unit-file rendering: a pure, total function from a descriptor to the
//! stored unit text.

use vstd::prelude::*;

use crate::descriptor::DescriptorModel;
use crate::descriptor::ServiceDescriptor;
use crate::num::spec_decimal;
use crate::num::u64_to_string;

verus! {

/// The optional leading comment line that records the registered domain.
pub open spec fn spec_domain_line(d: DescriptorModel) -> Seq<char> {
    match d.registered_domain {
        Some(x) => "#"@ + x + "\n"@,
        None => Seq::empty(),
    }
}

/// The optional environment line that hands the port to the service.
pub open spec fn spec_port_line(d: DescriptorModel) -> Seq<char> {
    match d.port {
        Some(p) => "Environment=\"PORT="@ + spec_decimal(p as nat) + "\"\n"@,
        None => Seq::empty(),
    }
}

/// The optional pre-start line; its leading `-` keeps a failure of the
/// pre-start command from failing the whole unit.
pub open spec fn spec_pre_start_line(d: DescriptorModel) -> Seq<char> {
    match d.pre_start_command {
        Some(c) => "ExecStartPre=-"@ + c + "\n"@,
        None => Seq::empty(),
    }
}

/// The full unit text of a descriptor: the optional domain comment, the
/// unit section, the service section (working directory, optional port,
/// optional pre-start), the second service section (start command and
/// restart directive), and the install section.
pub open spec fn spec_render(d: DescriptorModel) -> Seq<char> {
    spec_domain_line(d) + "[Unit]\nDescription="@ + d.description
        + "\n\n[Service]\nWorkingDirectory="@ + d.directory + "\n"@ + spec_port_line(d)
        + spec_pre_start_line(d) + "[Service]\nExecStart="@ + d.start_command
        + "\nRestart=on-failure\n\n[Install]\nWantedBy=default.target\n"@
}

/// Renders the unit text of a descriptor. Pure and total: the result is
/// exactly [`spec_render`] of the descriptor's model.
pub fn render(d: &ServiceDescriptor) -> (r: String)
    ensures
        r@ == spec_render(d@),
{
    let mut out = String::new();
    match d.registered_domain() {
        Some(x) => {
            out.append("#");
            out.append(x.as_str());
            out.append("\n");
        },
        None => {},
    }
    out.append("[Unit]\nDescription=");
    out.append(d.description().as_str());
    out.append("\n\n[Service]\nWorkingDirectory=");
    out.append(d.directory().as_str());
    out.append("\n");
    match d.port() {
        Some(p) => {
            out.append("Environment=\"PORT=");
            let digits = u64_to_string(p as u64);
            out.append(digits.as_str());
            out.append("\"\n");
        },
        None => {},
    }
    match d.pre_start_command() {
        Some(c) => {
            out.append("ExecStartPre=-");
            out.append(c.as_str());
            out.append("\n");
        },
        None => {},
    }
    out.append("[Service]\nExecStart=");
    out.append(d.start_command().as_str());
    out.append("\nRestart=on-failure\n\n[Install]\nWantedBy=default.target\n");
    proof {
        assert(out@ =~= spec_render(d@));
    }
    out
}

/// Rendering is deterministic: any two renderings of one descriptor are
/// the same text.
pub proof fn lemma_render_deterministic(d: DescriptorModel, t1: Seq<char>, t2: Seq<char>)
    requires
        t1 == spec_render(d),
        t2 == spec_render(d),
    ensures
        t1 == t2,
{
}

} // verus!

//! The two tables that a walk over a program fills: the modules it has
//! imported and the variables it has declared.
//!
//! Both are lists in order of arrival. A module is asked for by its name; a
//! variable is looked up by its name and the first declaration of that name
//! wins. Nothing checks that a name is declared once only.
use vstd::prelude::*;
use vstd::string::*;
use crate::structure::{
    lemma_imported_modules_view, lemma_var_declarations_view, ExecutionContext,
    ExecutionContextView, ImportedModule, ImportedModuleView, ImportedModules, VarDeclaration,
    VarDeclarationView,
};

verus! {

/// Whether a module with the given name is among `modules`.
pub open spec fn has_module(modules: Seq<ImportedModuleView>, name: Seq<char>) -> bool {
    exists|i: int| 0 <= i < modules.len() && (#[trigger] modules[i]).name == name
}

/// Scanning forward from `from`: the index of the first variable with the
/// given name at or after it.
pub open spec fn first_declared_from(
    variables: Seq<VarDeclarationView>,
    name: Seq<char>,
    from: int,
) -> Option<int>
    decreases variables.len() - from,
{
    if from < 0 || from >= variables.len() {
        None
    } else if variables[from].identifier == name {
        Some(from)
    } else {
        first_declared_from(variables, name, from + 1)
    }
}

/// The first variable with the given name, if any.
pub open spec fn lookup_of(variables: Seq<VarDeclarationView>, name: Seq<char>) -> Option<
    VarDeclarationView,
> {
    match first_declared_from(variables, name, 0) {
        Some(found) => Some(variables[found]),
        None => None,
    }
}

/// What `first_declared_from` finds has the name, and no variable between
/// `from` and it has the name.
pub proof fn lemma_first_declared_from(
    variables: Seq<VarDeclarationView>,
    name: Seq<char>,
    from: int,
)
    requires
        0 <= from <= variables.len(),
    ensures
        match first_declared_from(variables, name, from) {
            Some(found) => {
                &&& from <= found < variables.len()
                &&& variables[found].identifier == name
                &&& forall|i: int| from <= i < found ==> variables[i].identifier != name
            },
            None => forall|i: int| from <= i < variables.len() ==> variables[i].identifier != name,
        },
    decreases variables.len() - from,
{
    if from < variables.len() && variables[from].identifier != name {
        lemma_first_declared_from(variables, name, from + 1);
    }
}

/// Scanning a list that has grown by one variable finds what it found before,
/// and the new variable only where it found nothing.
proof fn lemma_first_declared_after_push(
    variables: Seq<VarDeclarationView>,
    variable: VarDeclarationView,
    name: Seq<char>,
    from: int,
)
    requires
        0 <= from <= variables.len(),
    ensures
        first_declared_from(variables.push(variable), name, from) == match first_declared_from(
            variables,
            name,
            from,
        ) {
            Some(found) => Some(found),
            None => if variable.identifier == name {
                Some(variables.len() as int)
            } else {
                None
            },
        },
    decreases variables.len() - from,
{
    let grown = variables.push(variable);
    if from < variables.len() {
        assert(grown[from] == variables[from]);
        if variables[from].identifier != name {
            lemma_first_declared_after_push(variables, variable, name, from + 1);
        }
    } else {
        assert(grown[from] == variable);
        assert(first_declared_from(grown, name, from + 1).is_none());
        assert(first_declared_from(variables, name, from).is_none());
    }
}

/// The first declaration of a name wins: declaring a variable changes no
/// lookup that found something before, and makes the new variable the answer
/// for its own name only where that name was not declared yet.
pub proof fn lemma_lookup_after_declare(
    variables: Seq<VarDeclarationView>,
    variable: VarDeclarationView,
    name: Seq<char>,
)
    ensures
        lookup_of(variables.push(variable), name) == match lookup_of(variables, name) {
            Some(found) => Some(found),
            None => if variable.identifier == name {
                Some(variable)
            } else {
                None
            },
        },
{
    lemma_first_declared_after_push(variables, variable, name, 0);
    lemma_first_declared_from(variables, name, 0);
}

/// A module is present after an import exactly when it was present before or
/// is the one imported.
pub proof fn lemma_has_module_after_import(
    modules: Seq<ImportedModuleView>,
    module: ImportedModuleView,
    name: Seq<char>,
)
    ensures
        has_module(modules.push(module), name) <==> has_module(modules, name) || module.name
            == name,
{
    let grown = modules.push(module);
    if has_module(modules, name) {
        let i = choose|i: int| 0 <= i < modules.len() && (#[trigger] modules[i]).name == name;
        assert(grown[i] == modules[i]);
    }
    if module.name == name {
        assert(grown[modules.len() as int] == module);
    }
    if has_module(grown, name) {
        let i = choose|i: int| 0 <= i < grown.len() && (#[trigger] grown[i]).name == name;
        if i < modules.len() {
            assert(modules[i] == grown[i]);
        }
    }
}

impl ImportedModules {
    /// Appends a module. Nothing is merged: importing a module twice lists it
    /// twice.
    pub fn import(&mut self, module: ImportedModule)
        ensures
            final(self)@.modules == old(self)@.modules.push(module@),
    {
        proof {
            lemma_imported_modules_view(self.modules@);
            lemma_imported_modules_view(self.modules@.push(module));
        }
        self.modules.push(module);
        assert(self@.modules =~= old(self)@.modules.push(module@));
    }

    /// Whether a module with the given name has been imported.
    pub fn contains(&self, name: &str) -> (present: bool)
        ensures
            present == has_module(self@.modules, name@),
    {
        proof {
            lemma_imported_modules_view(self.modules@);
        }
        let wanted = name.to_owned();
        let mut i: usize = 0;
        while i < self.modules.len()
            invariant
                i <= self.modules@.len(),
                self@.modules.len() == self.modules@.len(),
                forall|j: int|
                    0 <= j < self.modules@.len() ==> self@.modules[j] == self.modules@[j]@,
                forall|j: int| 0 <= j < i ==> (#[trigger] self@.modules[j]).name != name@,
                wanted@ == name@,
            decreases self.modules@.len() - i,
        {
            if self.modules[i].name == wanted {
                assert(self@.modules[i as int].name == name@);
                return true;
            }
            i += 1;
        }
        false
    }
}

impl ExecutionContext {
    /// Declares a variable: appends it to the variables of this scope. An
    /// earlier variable of the same name stays and keeps winning lookups.
    pub fn declare(&mut self, variable: VarDeclaration)
        ensures
            final(self)@ == (ExecutionContextView {
                scoped_variables: old(self)@.scoped_variables.push(variable@),
                ..old(self)@
            }),
    {
        proof {
            lemma_var_declarations_view(self.scoped_variables@);
            lemma_var_declarations_view(self.scoped_variables@.push(variable));
        }
        self.scoped_variables.push(variable);
        assert(self@.scoped_variables =~= old(self)@.scoped_variables.push(variable@));
    }

    /// Looks a variable up by its name: the first one declared under that
    /// name, or nothing where none was.
    pub fn lookup(&self, name: &str) -> (found: Option<&VarDeclaration>)
        ensures
            match found {
                Some(variable) => lookup_of(self@.scoped_variables, name@) == Some(variable@),
                None => lookup_of(self@.scoped_variables, name@).is_none(),
            },
    {
        let ghost variables = self@.scoped_variables;
        proof {
            lemma_var_declarations_view(self.scoped_variables@);
        }
        let wanted = name.to_owned();
        let mut i: usize = 0;
        while i < self.scoped_variables.len()
            invariant
                i <= self.scoped_variables@.len(),
                variables == self@.scoped_variables,
                variables.len() == self.scoped_variables@.len(),
                forall|j: int|
                    0 <= j < self.scoped_variables@.len() ==> variables[j]
                        == self.scoped_variables@[j]@,
                first_declared_from(variables, name@, 0) == first_declared_from(
                    variables,
                    name@,
                    i as int,
                ),
                wanted@ == name@,
            decreases self.scoped_variables@.len() - i,
        {
            let variable = &self.scoped_variables[i];
            if variable.identifier == wanted {
                return Some(variable);
            }
            i += 1;
        }
        None
    }
}

} // verus!

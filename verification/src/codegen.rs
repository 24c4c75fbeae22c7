//! Which kinds of declaration the generator is asked to emit.

use vstd::prelude::*;

verus! {

/// A kind of declaration that the generator tells apart when it emits.
///
/// The first four have a switch on the command line. Constructors and
/// destructors have none: they are emitted when every kind is.
#[derive(Clone, Copy, Debug, PartialEq, Eq, Structural)]
pub enum Category {
    Types,
    Functions,
    Methods,
    Vars,
    Constructors,
    Destructors,
}

/// A set of categories: for each of them, whether it is in the set.
#[derive(Clone, Copy, Debug, PartialEq, Eq, Structural)]
pub struct CodegenConfig {
    pub types: bool,
    pub functions: bool,
    pub methods: bool,
    pub vars: bool,
    pub constructors: bool,
    pub destructors: bool,
}

impl View for CodegenConfig {
    type V = Set<Category>;

    open spec fn view(&self) -> Set<Category> {
        Set::new(
            |c: Category|
                match c {
                    Category::Types => self.types,
                    Category::Functions => self.functions,
                    Category::Methods => self.methods,
                    Category::Vars => self.vars,
                    Category::Constructors => self.constructors,
                    Category::Destructors => self.destructors,
                },
        )
    }
}

/// The categories named by the four `--generate-*` switches.
pub open spec fn selected(
    types: bool,
    functions: bool,
    methods: bool,
    vars: bool,
) -> Set<Category> {
    Set::new(
        |c: Category|
            match c {
                Category::Types => types,
                Category::Functions => functions,
                Category::Methods => methods,
                Category::Vars => vars,
                Category::Constructors => false,
                Category::Destructors => false,
            },
    )
}

/// What a run emits: the selected categories, or every category when none
/// was selected, those without a switch among them.
pub open spec fn effective(
    types: bool,
    functions: bool,
    methods: bool,
    vars: bool,
) -> Set<Category> {
    if types || functions || methods || vars {
        selected(types, functions, methods, vars)
    } else {
        Set::full()
    }
}

impl CodegenConfig {
    /// The set without any category.
    pub fn empty() -> (config: CodegenConfig)
        ensures
            config@ == Set::<Category>::empty(),
    {
        CodegenConfig {
            types: false,
            functions: false,
            methods: false,
            vars: false,
            constructors: false,
            destructors: false,
        }
    }

    /// The set of every category.
    pub fn all() -> (config: CodegenConfig)
        ensures
            config@ == Set::<Category>::full(),
    {
        CodegenConfig {
            types: true,
            functions: true,
            methods: true,
            vars: true,
            constructors: true,
            destructors: true,
        }
    }

    /// Whether `category` is in the set.
    pub fn contains(&self, category: Category) -> (found: bool)
        ensures
            found == self@.contains(category),
    {
        match category {
            Category::Types => self.types,
            Category::Functions => self.functions,
            Category::Methods => self.methods,
            Category::Vars => self.vars,
            Category::Constructors => self.constructors,
            Category::Destructors => self.destructors,
        }
    }

    /// The set with `category` added.
    pub fn insert(self, category: Category) -> (config: CodegenConfig)
        ensures
            config@ == self@.insert(category),
    {
        let mut config = self;
        match category {
            Category::Types => {
                config.types = true;
            },
            Category::Functions => {
                config.functions = true;
            },
            Category::Methods => {
                config.methods = true;
            },
            Category::Vars => {
                config.vars = true;
            },
            Category::Constructors => {
                config.constructors = true;
            },
            Category::Destructors => {
                config.destructors = true;
            },
        }
        config
    }

    /// Whether no category is in the set.
    pub fn is_empty(&self) -> (none: bool)
        ensures
            none == (self@ == Set::<Category>::empty()),
    {
        let none = !self.types && !self.functions && !self.methods && !self.vars
            && !self.constructors && !self.destructors;
        proof {
            if none {
                assert(self@ =~= Set::<Category>::empty());
            } else {
                let witness = if self.types {
                    Category::Types
                } else if self.functions {
                    Category::Functions
                } else if self.methods {
                    Category::Methods
                } else if self.vars {
                    Category::Vars
                } else if self.constructors {
                    Category::Constructors
                } else {
                    Category::Destructors
                };
                assert(self@.contains(witness));
            }
        }
        none
    }

    /// The set that the four `--generate-*` switches select for a run.
    ///
    /// With no switch given the run emits every category; with at least one,
    /// exactly the categories whose switch was given.
    pub fn from_flags(
        types: bool,
        functions: bool,
        methods: bool,
        vars: bool,
    ) -> (config: CodegenConfig)
        ensures
            config@ == effective(types, functions, methods, vars),
            !(types || functions || methods || vars) ==> config@ == Set::<Category>::full(),
            (types || functions || methods || vars)
                ==> config@ == selected(types, functions, methods, vars),
    {
        let mut config = CodegenConfig::empty();
        if types {
            config = config.insert(Category::Types);
        }
        if functions {
            config = config.insert(Category::Functions);
        }
        if methods {
            config = config.insert(Category::Methods);
        }
        if vars {
            config = config.insert(Category::Vars);
        }
        proof {
            let chosen = selected(types, functions, methods, vars);
            assert(config@ =~= chosen);
            assert(types ==> chosen.contains(Category::Types));
            assert(functions ==> chosen.contains(Category::Functions));
            assert(methods ==> chosen.contains(Category::Methods));
            assert(vars ==> chosen.contains(Category::Vars));
            if !(types || functions || methods || vars) {
                assert(chosen =~= Set::<Category>::empty());
            }
        }
        if config.is_empty() {
            config = CodegenConfig::all();
        }
        config
    }
}

} // verus!

//! What an extension is loaded from, and the loader that instantiates it.
//!
//! The directives that the schema holds for the extension are stored once,
//! in the loader. What is handed to each instance refers to them by their
//! position in that store.

use vstd::prelude::*;
use crate::host::version::{declared_version, selection, LoadError, SdkPre};

verus! {

/// Where the guest binary lies and which capabilities it is granted.
#[derive(Debug)]
pub struct WasmConfig {
    pub location: String,
    pub networking: bool,
}

/// A directive that the schema holds for an extension: its name, the
/// subgraph it comes from and its serialized arguments.
#[derive(Debug)]
pub struct SchemaDirective {
    name: String,
    subgraph_name: String,
    arguments: Vec<u8>,
}

/// The immutable description of an extension, made once at startup.
#[derive(Debug)]
pub struct ExtensionConfig {
    pub sdk_version: semver::Version,
    pub wasm: WasmConfig,
    pub schema_directives: Vec<SchemaDirective>,
    pub guest_config: Vec<u8>,
}

/// The interfaces that the linker of an extension provides. The system
/// interface is always linked; the HTTP interface only for an extension
/// that may use the network.
#[derive(Clone, Copy, Debug, PartialEq, Eq, Structural)]
pub struct LinkerPlan {
    pub component_model: bool,
    pub async_support: bool,
    pub wasi: bool,
    pub wasi_http: bool,
}

/// What an instance is made with: whether it may use the network, the
/// positions of its schema directives in the loader's store, and the
/// guest's configuration.
#[derive(Debug)]
pub struct InstanceSetup<'a> {
    pub networking: bool,
    pub schema_directives: &'a Vec<usize>,
    pub guest_config: &'a Vec<u8>,
}

/// The loader of one extension.
#[derive(Debug)]
pub struct ExtensionLoader {
    wasm_config: WasmConfig,
    guest_config: Vec<u8>,
    schema_directives: Vec<SchemaDirective>,
    wit_schema_directives: Vec<usize>,
    pre: SdkPre,
    linker: LinkerPlan,
}

impl SchemaDirective {
    /// The directive as name, subgraph name and arguments.
    pub closed spec fn view(&self) -> (Seq<char>, Seq<char>, Seq<u8>) {
        (self.name@, self.subgraph_name@, self.arguments@)
    }

    /// A directive with these parts.
    pub fn new(name: String, subgraph_name: String, arguments: Vec<u8>) -> (directive: Self)
        ensures
            directive@ == (name@, subgraph_name@, arguments@),
    {
        SchemaDirective { name, subgraph_name, arguments }
    }

    /// The name of the directive.
    pub fn name(&self) -> (name: &str)
        ensures
            name@ == self@.0,
    {
        self.name.as_str()
    }

    /// The name of the subgraph that the directive comes from.
    pub fn subgraph_name(&self) -> (name: &str)
        ensures
            name@ == self@.1,
    {
        self.subgraph_name.as_str()
    }

    /// The serialized arguments of the directive.
    pub fn arguments(&self) -> (arguments: &Vec<u8>)
        ensures
            arguments@ == self@.2,
    {
        &self.arguments
    }
}

/// The linker for an extension that may or may not use the network.
pub open spec fn linker_plan(networking: bool) -> LinkerPlan {
    LinkerPlan { component_model: true, async_support: true, wasi: true, wasi_http: networking }
}

impl ExtensionLoader {
    /// The adapter that serves the extension.
    pub closed spec fn adapter(&self) -> SdkPre {
        self.pre
    }

    /// The interfaces that are linked.
    pub closed spec fn linker(&self) -> LinkerPlan {
        self.linker
    }

    /// The schema directives, as they were configured.
    pub closed spec fn directives(&self) -> Seq<SchemaDirective> {
        self.schema_directives@
    }

    /// The positions of the directives that an instance is handed.
    pub closed spec fn directive_refs(&self) -> Seq<usize> {
        self.wit_schema_directives@
    }

    /// The guest's configuration.
    pub closed spec fn guest_config(&self) -> Seq<u8> {
        self.guest_config@
    }

    /// Whether the extension may use the network.
    pub closed spec fn networking(&self) -> bool {
        self.wasm_config.networking
    }

    /// Every directive is referred to once, in order.
    pub open spec fn wf(&self) -> bool {
        &&& self.directive_refs().len() == self.directives().len()
        &&& forall|i: int| 0 <= i < self.directive_refs().len() ==> #[trigger] self.directive_refs()[i] == i
    }

    /// Loads an extension: selects the adapter for the SDK version that the
    /// configuration declares and plans the linker for the capabilities it
    /// grants.
    ///
    /// A version below the oldest supported revision is a load error;
    /// every other configuration is loaded.
    pub fn new(config: ExtensionConfig) -> (loaded: Result<Self, LoadError>)
        ensures
            selection(declared_version(config.sdk_version)) == match loaded {
                Ok(loader) => Ok::<SdkPre, LoadError>(loader.adapter()),
                Err(error) => Err::<SdkPre, LoadError>(error),
            },
            loaded matches Ok(loader) ==> {
                &&& loader.wf()
                &&& loader.linker() == linker_plan(config.wasm.networking)
                &&& loader.networking() == config.wasm.networking
                &&& loader.directives() == config.schema_directives@
                &&& loader.guest_config() == config.guest_config@
            },
    {
        let pre = match SdkPre::new(&config) {
            Ok(pre) => pre,
            Err(error) => {
                return Err(error);
            },
        };
        let linker = LinkerPlan {
            component_model: true,
            async_support: true,
            wasi: true,
            wasi_http: config.wasm.networking,
        };
        let mut wit_schema_directives: Vec<usize> = Vec::new();
        let mut index: usize = 0;
        while index < config.schema_directives.len()
            invariant
                index <= config.schema_directives@.len(),
                wit_schema_directives@.len() == index,
                forall|i: int| 0 <= i < index ==> #[trigger] wit_schema_directives@[i] == i,
            decreases config.schema_directives@.len() - index,
        {
            wit_schema_directives.push(index);
            index += 1;
        }
        Ok(
            ExtensionLoader {
                wasm_config: config.wasm,
                guest_config: config.guest_config,
                schema_directives: config.schema_directives,
                wit_schema_directives,
                pre,
                linker,
            },
        )
    }

    /// The adapter that serves the extension.
    pub fn pre(&self) -> (pre: SdkPre)
        ensures
            pre == self.adapter(),
    {
        self.pre
    }

    /// The interfaces to link.
    pub fn linker_plan(&self) -> (plan: LinkerPlan)
        ensures
            plan == self.linker(),
    {
        self.linker
    }

    /// What the next instance of the extension is made with.
    pub fn instantiate(&self) -> (setup: InstanceSetup<'_>)
        ensures
            setup.networking == self.networking(),
            setup.schema_directives@ == self.directive_refs(),
            setup.guest_config@ == self.guest_config(),
    {
        InstanceSetup {
            networking: self.wasm_config.networking,
            schema_directives: &self.wit_schema_directives,
            guest_config: &self.guest_config,
        }
    }

    /// The directive at `position` of the store.
    pub fn schema_directive(&self, position: usize) -> (directive: Option<&SchemaDirective>)
        ensures
            match directive {
                Some(d) => position < self.directives().len() && *d == self.directives()[position as int],
                None => position >= self.directives().len(),
            },
    {
        if position < self.schema_directives.len() {
            Some(&self.schema_directives[position])
        } else {
            None
        }
    }
}

} // verus!

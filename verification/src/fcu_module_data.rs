//! The FCU configuration dataset: modules, user events and user nodes.

use crate::fields::{
    bool_field, element_end, element_fields, find_end, get_bool, get_text, get_u16, lookup,
    read_fields, text_field, u16_field, Field,
};
use crate::records::{group_records, read_group, Record};
use crate::xml_events::{tokenize, xml_tokens, XmlToken};
use vstd::prelude::*;

verus! {

/// A module definition.
#[derive(Clone, Debug, PartialEq)]
#[allow(non_snake_case)]
pub struct MergModule {
    pub moduleId: u16,
    pub moduleName: String,
    pub moduleType: u16,
    pub moduleEvents: u16,
    pub moduleValues: u16,
    pub numNvs: u16,
}

/// What a [`MergModule`] holds.
#[allow(non_snake_case)]
pub struct MergModuleView {
    pub moduleId: u16,
    pub moduleName: Seq<char>,
    pub moduleType: u16,
    pub moduleEvents: u16,
    pub moduleValues: u16,
    pub numNvs: u16,
}

impl View for MergModule {
    type V = MergModuleView;

    open spec fn view(&self) -> MergModuleView {
        MergModuleView {
            moduleId: self.moduleId,
            moduleName: self.moduleName@,
            moduleType: self.moduleType,
            moduleEvents: self.moduleEvents,
            moduleValues: self.moduleValues,
            numNvs: self.numNvs,
        }
    }
}

/// A CBus event definition.
#[derive(Clone, Debug, PartialEq)]
#[allow(non_snake_case)]
pub struct UserEvent {
    pub eventId: u16,
    pub ownerNode: u16,
    pub nodeName: String,
    pub eventName: String,
    pub Values: String,
    pub eventNode: u16,
    pub eventValue: u16,
}

/// What a [`UserEvent`] holds.
#[allow(non_snake_case)]
pub struct UserEventView {
    pub eventId: u16,
    pub ownerNode: u16,
    pub nodeName: Seq<char>,
    pub eventName: Seq<char>,
    pub Values: Seq<char>,
    pub eventNode: u16,
    pub eventValue: u16,
}

impl View for UserEvent {
    type V = UserEventView;

    open spec fn view(&self) -> UserEventView {
        UserEventView {
            eventId: self.eventId,
            ownerNode: self.ownerNode,
            nodeName: self.nodeName@,
            eventName: self.eventName@,
            Values: self.Values@,
            eventNode: self.eventNode,
            eventValue: self.eventValue,
        }
    }
}

/// A CBus node definition.
#[derive(Clone, Debug, PartialEq)]
#[allow(non_snake_case)]
pub struct UserNode {
    pub moduleId: u16,
    pub moduleName: String,
    pub nodeNum: u16,
    pub nodeName: String,
    pub numEvents: u16,
    pub inUse: bool,
    pub Flim: bool,
    pub NodeVars: String,
    pub maxEvents: u16,
    pub Version: String,
    pub CanId: u16,
    pub maxNVs: u16,
    pub ProcId: String,
}

/// What a [`UserNode`] holds.
#[allow(non_snake_case)]
pub struct UserNodeView {
    pub moduleId: u16,
    pub moduleName: Seq<char>,
    pub nodeNum: u16,
    pub nodeName: Seq<char>,
    pub numEvents: u16,
    pub inUse: bool,
    pub Flim: bool,
    pub NodeVars: Seq<char>,
    pub maxEvents: u16,
    pub Version: Seq<char>,
    pub CanId: u16,
    pub maxNVs: u16,
    pub ProcId: Seq<char>,
}

impl View for UserNode {
    type V = UserNodeView;

    open spec fn view(&self) -> UserNodeView {
        UserNodeView {
            moduleId: self.moduleId,
            moduleName: self.moduleName@,
            nodeNum: self.nodeNum,
            nodeName: self.nodeName@,
            numEvents: self.numEvents,
            inUse: self.inUse,
            Flim: self.Flim,
            NodeVars: self.NodeVars@,
            maxEvents: self.maxEvents,
            Version: self.Version@,
            CanId: self.CanId,
            maxNVs: self.maxNVs,
            ProcId: self.ProcId@,
        }
    }
}

/// The whole configuration, each sequence in document order.
#[derive(Clone, Debug, PartialEq)]
#[allow(non_snake_case)]
pub struct MergModuleDataSet {
    pub mergModules: Vec<MergModule>,
    pub userEvents: Vec<UserEvent>,
    pub userNodes: Vec<UserNode>,
}

/// What a [`MergModuleDataSet`] holds.
#[allow(non_snake_case)]
pub struct DataSetView {
    pub mergModules: Seq<MergModuleView>,
    pub userEvents: Seq<UserEventView>,
    pub userNodes: Seq<UserNodeView>,
}

impl View for MergModuleDataSet {
    type V = DataSetView;

    open spec fn view(&self) -> DataSetView {
        DataSetView {
            mergModules: self.mergModules.deep_view(),
            userEvents: self.userEvents.deep_view(),
            userNodes: self.userNodes.deep_view(),
        }
    }
}

impl DeepView for MergModule {
    type V = MergModuleView;

    open spec fn deep_view(&self) -> MergModuleView {
        self@
    }
}

impl DeepView for UserEvent {
    type V = UserEventView;

    open spec fn deep_view(&self) -> UserEventView {
        self@
    }
}

impl DeepView for UserNode {
    type V = UserNodeView;

    open spec fn deep_view(&self) -> UserNodeView {
        self@
    }
}

impl Record for MergModule {
    open spec fn bound(fields: Seq<Field>) -> Option<MergModuleView> {
        let id = u16_field(fields, "moduleId"@);
        let name = text_field(fields, "moduleName"@);
        let kind = u16_field(fields, "moduleType"@);
        let events = u16_field(fields, "moduleEvents"@);
        let values = u16_field(fields, "moduleValues"@);
        let nvs = u16_field(fields, "numNvs"@);
        if id is Some && name is Some && kind is Some && events is Some && values is Some
            && nvs is Some {
            Some(
                MergModuleView {
                    moduleId: id.unwrap(),
                    moduleName: name.unwrap(),
                    moduleType: kind.unwrap(),
                    moduleEvents: events.unwrap(),
                    moduleValues: values.unwrap(),
                    numNvs: nvs.unwrap(),
                },
            )
        } else {
            None
        }
    }

    #[allow(non_snake_case)]
    fn bind(fields: &Vec<Field>) -> (record: Option<MergModule>) {
        let moduleId = get_u16(fields, "moduleId")?;
        let moduleName = get_text(fields, "moduleName")?;
        let moduleType = get_u16(fields, "moduleType")?;
        let moduleEvents = get_u16(fields, "moduleEvents")?;
        let moduleValues = get_u16(fields, "moduleValues")?;
        let numNvs = get_u16(fields, "numNvs")?;
        Some(MergModule { moduleId, moduleName, moduleType, moduleEvents, moduleValues, numNvs })
    }
}

impl Record for UserEvent {
    open spec fn bound(fields: Seq<Field>) -> Option<UserEventView> {
        let id = u16_field(fields, "eventId"@);
        let owner = u16_field(fields, "ownerNode"@);
        let node_name = text_field(fields, "nodeName"@);
        let event_name = text_field(fields, "eventName"@);
        let values = text_field(fields, "Values"@);
        let node = u16_field(fields, "eventNode"@);
        let value = u16_field(fields, "eventValue"@);
        if id is Some && owner is Some && node_name is Some && event_name is Some && values
            is Some && node is Some && value is Some {
            Some(
                UserEventView {
                    eventId: id.unwrap(),
                    ownerNode: owner.unwrap(),
                    nodeName: node_name.unwrap(),
                    eventName: event_name.unwrap(),
                    Values: values.unwrap(),
                    eventNode: node.unwrap(),
                    eventValue: value.unwrap(),
                },
            )
        } else {
            None
        }
    }

    #[allow(non_snake_case)]
    fn bind(fields: &Vec<Field>) -> (record: Option<UserEvent>) {
        let eventId = get_u16(fields, "eventId")?;
        let ownerNode = get_u16(fields, "ownerNode")?;
        let nodeName = get_text(fields, "nodeName")?;
        let eventName = get_text(fields, "eventName")?;
        let Values = get_text(fields, "Values")?;
        let eventNode = get_u16(fields, "eventNode")?;
        let eventValue = get_u16(fields, "eventValue")?;
        Some(UserEvent { eventId, ownerNode, nodeName, eventName, Values, eventNode, eventValue })
    }
}

impl Record for UserNode {
    open spec fn bound(fields: Seq<Field>) -> Option<UserNodeView> {
        let module_id = u16_field(fields, "moduleId"@);
        let module_name = text_field(fields, "moduleName"@);
        let node_num = u16_field(fields, "nodeNum"@);
        let node_name = text_field(fields, "nodeName"@);
        let num_events = u16_field(fields, "numEvents"@);
        let in_use = bool_field(fields, "inUse"@);
        let flim = bool_field(fields, "Flim"@);
        let node_vars = text_field(fields, "NodeVars"@);
        let max_events = u16_field(fields, "maxEvents"@);
        let version = text_field(fields, "Version"@);
        let can_id = u16_field(fields, "CanId"@);
        let max_nvs = u16_field(fields, "maxNVs"@);
        let proc_id = text_field(fields, "ProcId"@);
        if module_id is Some && module_name is Some && node_num is Some && node_name is Some
            && num_events is Some && in_use is Some && flim is Some && node_vars is Some
            && max_events is Some && version is Some && can_id is Some && max_nvs is Some
            && proc_id is Some {
            Some(
                UserNodeView {
                    moduleId: module_id.unwrap(),
                    moduleName: module_name.unwrap(),
                    nodeNum: node_num.unwrap(),
                    nodeName: node_name.unwrap(),
                    numEvents: num_events.unwrap(),
                    inUse: in_use.unwrap(),
                    Flim: flim.unwrap(),
                    NodeVars: node_vars.unwrap(),
                    maxEvents: max_events.unwrap(),
                    Version: version.unwrap(),
                    CanId: can_id.unwrap(),
                    maxNVs: max_nvs.unwrap(),
                    ProcId: proc_id.unwrap(),
                },
            )
        } else {
            None
        }
    }

    #[allow(non_snake_case)]
    fn bind(fields: &Vec<Field>) -> (record: Option<UserNode>) {
        let moduleId = get_u16(fields, "moduleId")?;
        let moduleName = get_text(fields, "moduleName")?;
        let nodeNum = get_u16(fields, "nodeNum")?;
        let nodeName = get_text(fields, "nodeName")?;
        let numEvents = get_u16(fields, "numEvents")?;
        let inUse = get_bool(fields, "inUse")?;
        let Flim = get_bool(fields, "Flim")?;
        let NodeVars = get_text(fields, "NodeVars")?;
        let maxEvents = get_u16(fields, "maxEvents")?;
        let Version = get_text(fields, "Version")?;
        let CanId = get_u16(fields, "CanId")?;
        let maxNVs = get_u16(fields, "maxNVs")?;
        let ProcId = get_text(fields, "ProcId")?;
        Some(
            UserNode {
                moduleId,
                moduleName,
                nodeNum,
                nodeName,
                numEvents,
                inUse,
                Flim,
                NodeVars,
                maxEvents,
                Version,
                CanId,
                maxNVs,
                ProcId,
            },
        )
    }
}

/// Whether the element that the first token opens is all of the document:
/// the end of the document, and nothing else, follows its end tag.
pub open spec fn has_one_root(tokens: Seq<XmlToken>) -> bool {
    &&& element_end(tokens, 0) == Some(tokens.len() - 1)
    &&& tokens.last() is EndDocument
}

/// The dataset that the significant tokens of a document describe. The
/// first token opens the root element, whatever its name, and the document
/// ends with it. Its child elements `mergModules`, `userEvents` and
/// `userNodes` are the records, each kind in one run; other children and
/// attributes are passed over.
pub open spec fn dataset_of(tokens: Seq<XmlToken>) -> Option<DataSetView> {
    match element_fields(tokens, 0) {
        Some(fields) => {
            let modules = group_records::<MergModule>(tokens, fields, "mergModules"@);
            let events = group_records::<UserEvent>(tokens, fields, "userEvents"@);
            let nodes = group_records::<UserNode>(tokens, fields, "userNodes"@);
            if has_one_root(tokens) && modules is Some && events is Some && nodes is Some {
                Some(
                    DataSetView {
                        mergModules: modules.unwrap(),
                        userEvents: events.unwrap(),
                        userNodes: nodes.unwrap(),
                    },
                )
            } else {
                None
            }
        },
        None => None,
    }
}

/// A module is bound only where each of its six fields is there, once.
pub proof fn lemma_module_needs_each_field(fields: Seq<Field>, key: Seq<char>)
    requires
        key == "moduleId"@ || key == "moduleName"@ || key == "moduleType"@ || key
            == "moduleEvents"@ || key == "moduleValues"@ || key == "numNvs"@,
        lookup(fields, key) is None,
    ensures
        MergModule::bound(fields) is None,
{
}

/// A user event is bound only where each of its seven fields is there,
/// once.
pub proof fn lemma_event_needs_each_field(fields: Seq<Field>, key: Seq<char>)
    requires
        key == "eventId"@ || key == "ownerNode"@ || key == "nodeName"@ || key == "eventName"@
            || key == "Values"@ || key == "eventNode"@ || key == "eventValue"@,
        lookup(fields, key) is None,
    ensures
        UserEvent::bound(fields) is None,
{
}

/// A user node is bound only where each of its thirteen fields is there,
/// once.
pub proof fn lemma_node_needs_each_field(fields: Seq<Field>, key: Seq<char>)
    requires
        key == "moduleId"@ || key == "moduleName"@ || key == "nodeNum"@ || key == "nodeName"@
            || key == "numEvents"@ || key == "inUse"@ || key == "Flim"@ || key == "NodeVars"@
            || key == "maxEvents"@ || key == "Version"@ || key == "CanId"@ || key == "maxNVs"@
            || key == "ProcId"@,
        lookup(fields, key) is None,
    ensures
        UserNode::bound(fields) is None,
{
}

/// A document loads as a whole or not at all: where one record of any kind
/// does not bind, there is no dataset.
pub proof fn lemma_one_bad_record_fails_the_document(tokens: Seq<XmlToken>)
    requires
        element_fields(tokens, 0) matches Some(fields) && (group_records::<MergModule>(
            tokens,
            fields,
            "mergModules"@,
        ) is None || group_records::<UserEvent>(tokens, fields, "userEvents"@) is None
            || group_records::<UserNode>(tokens, fields, "userNodes"@) is None),
    ensures
        dataset_of(tokens) is None,
{
}

/// The dataset that the document in `bytes` describes; none where the
/// document is not well-formed or does not fit the schema.
pub open spec fn parsed(bytes: Seq<u8>) -> Option<DataSetView> {
    match xml_tokens(bytes) {
        Some(tokens) => dataset_of(tokens),
        None => None,
    }
}

/// Why a configuration could not be loaded.
#[derive(Clone, Debug, PartialEq, Eq)]
pub enum LoadError {
    /// The file at this path could not be opened.
    OpenFailed(String),
    /// The file does not hold a configuration.
    ParseFailed,
}

impl LoadError {
    /// The words that say what went wrong.
    pub fn message(&self) -> (text: &'static str)
        ensures
            text@ == match self {
                LoadError::OpenFailed(_) => "error opening file"@,
                LoadError::ParseFailed => "error during serialization"@,
            },
    {
        match self {
            LoadError::OpenFailed(_) => "error opening file",
            LoadError::ParseFailed => "error during serialization",
        }
    }
}

#[allow(non_snake_case)]
impl MergModuleDataSet {
    /// Binds the significant tokens of a document to a dataset.
    pub fn from_tokens(tokens: &Vec<XmlToken>) -> (dataset: Option<MergModuleDataSet>)
        ensures
            match dataset {
                Some(d) => dataset_of(tokens@) == Some(d@),
                None => dataset_of(tokens@) is None,
            },
    {
        let fields = read_fields(tokens, 0)?;
        let end = find_end(tokens, 0)?;
        if end >= tokens.len() || end != tokens.len() - 1 {
            return None;
        }
        match &tokens[end] {
            XmlToken::EndDocument => {},
            _ => {
                return None;
            },
        }
        let mergModules = read_group::<MergModule>(tokens, &fields, "mergModules")?;
        let userEvents = read_group::<UserEvent>(tokens, &fields, "userEvents")?;
        let userNodes = read_group::<UserNode>(tokens, &fields, "userNodes")?;
        Some(MergModuleDataSet { mergModules, userEvents, userNodes })
    }

    /// Reads the contents of a file as XML. `contents` is what the file at
    /// `xml_file` holds, or `None` where it could not be opened.
    pub fn read_fcu_file(xml_file: &str, contents: Option<&[u8]>) -> (result: Result<
        MergModuleDataSet,
        LoadError,
    >)
        ensures
            match result {
                Ok(d) => contents matches Some(bytes) && parsed(bytes@) == Some(d@),
                Err(LoadError::OpenFailed(path)) => contents is None && path@ == xml_file@,
                Err(LoadError::ParseFailed) => contents matches Some(bytes) && parsed(bytes@)
                    is None,
            },
    {
        match contents {
            None => Err(LoadError::OpenFailed(xml_file.to_owned())),
            Some(bytes) => match tokenize(bytes) {
                None => Err(LoadError::ParseFailed),
                Some(tokens) => match MergModuleDataSet::from_tokens(&tokens) {
                    Some(dataset) => Ok(dataset),
                    None => Err(LoadError::ParseFailed),
                },
            },
        }
    }

    /// Loads the configuration in the file at `module_dataset_file`, whose
    /// contents are `contents`, or `None` where it could not be opened.
    pub fn populate(module_dataset_file: &str, contents: Option<&[u8]>) -> (result: Result<
        MergModuleDataSet,
        LoadError,
    >)
        ensures
            match result {
                Ok(d) => contents matches Some(bytes) && parsed(bytes@) == Some(d@),
                Err(LoadError::OpenFailed(path)) => contents is None && path@
                    == module_dataset_file@,
                Err(LoadError::ParseFailed) => contents matches Some(bytes) && parsed(bytes@)
                    is None,
            },
    {
        MergModuleDataSet::read_fcu_file(module_dataset_file, contents)
    }

    /// The configuration in the file at `module_dataset_file`, whose
    /// contents are `contents`, or `None` where it could not be opened; the
    /// error where there is none to be had.
    pub fn new(module_dataset_file: &str, contents: Option<&[u8]>) -> (result: Result<
        MergModuleDataSet,
        LoadError,
    >)
        ensures
            match result {
                Ok(d) => contents matches Some(bytes) && parsed(bytes@) == Some(d@),
                Err(LoadError::OpenFailed(path)) => contents is None && path@
                    == module_dataset_file@,
                Err(LoadError::ParseFailed) => contents matches Some(bytes) && parsed(bytes@)
                    is None,
            },
    {
        MergModuleDataSet::read_fcu_file(module_dataset_file, contents)
    }
}

} // verus!
